//! Twilio connector (REST API 2010-04-01).
use vstd::prelude::*;
use crate::connectors::catalog::{build_catalog, catalog_text, requires_properties, schema_view, texts, SchemaNames};
use vstd::string::StringSliceAdditionalSpecFns;
use vstd::utf8::{encode_utf8, is_char_boundary};
use crate::encoding::{base64_spec, base64_standard, encode_bytes, form_body, form_body_spec, form_pair, is_url_safe, percent_encode};
use crate::fmt::{byte_len, byte_prefix, byte_prefix_spec, get_nested_str_or, get_str_or, str_or};
use crate::http::{fail_view, form_view, ok_view, send, send_form, send_status, send_view, status_view, Method, Step, StepView};
use crate::json::{get_array, get_bool, get_str, get_u64, Json};
use crate::occurs::{lemma_occurs_append, lemma_occurs_prepend, lemma_occurs_tail5, lemma_occurs_tail6, occurs};
use crate::text::{dec_nat, owned, push_char, push_str, push_u64, str_eq, u64_to_string};

verus! {

broadcast use vstd::string::group_string_axioms;

/// Twilio credentials (`~/.osmozzz/twilio.toml`).
pub struct TwilioConfig {
    pub account_sid: String,
    pub auth_token: String,
    pub from_number: Option<String>,
}

impl TwilioConfig {
    /// Base URL of the account-scoped endpoints.
    pub fn base(&self) -> (r: String)
        ensures
            r@ == "https://api.twilio.com/2010-04-01/Accounts/"@ + self.account_sid@,
    {
        let mut out = owned("https://api.twilio.com/2010-04-01/Accounts/");
        push_str(&mut out, self.account_sid.as_str());
        out
    }
}

/// The HTTP Basic credentials: base64 of `account_sid:auth_token`.
pub fn basic_auth(cfg: &TwilioConfig) -> (r: String)
    ensures
        r@ == base64_spec(encode_utf8(cfg.account_sid@ + ":"@ + cfg.auth_token@)),
{
    let mut creds = String::new();
    push_str(&mut creds, cfg.account_sid.as_str());
    push_str(&mut creds, ":");
    push_str(&mut creds, cfg.auth_token.as_str());
    assert(creds@ == cfg.account_sid@ + ":"@ + cfg.auth_token@);
    base64_standard(creds.as_str().as_bytes())
}

/// Percent-encodes a form value byte by byte, keeping only unreserved characters.
pub fn urlencoding_simple(s: &str) -> (r: String)
    ensures
        r@ == encode_bytes(s.spec_bytes(), false),
        forall|i: int| 0 <= i < r@.len() ==> is_url_safe(#[trigger] r@[i]),
{
    percent_encode(s, false)
}

/// The form body of a POST request: each key and value encoded, pairs joined by `&`.
pub fn post_form_body(params: &[(&str, &str)]) -> (r: String)
    ensures
        r@ == form_body_spec(params@),
{
    form_body(params)
}


// ─── Tool calls ──────────────────────────────────────────────────────────────

/// The account-scoped base URL of `account_sid`.
pub open spec fn base_url(account_sid: Seq<char>) -> Seq<char> {
    "https://api.twilio.com/2010-04-01/Accounts/"@ + account_sid
}

/// The percent-encoding of a text (see [`urlencoding_simple`]).
pub open spec fn url_enc(s: Seq<char>) -> Seq<char> {
    encode_bytes(encode_utf8(s), false)
}

/// One encoded `key=value` pair of a form.
pub open spec fn pair(k: Seq<char>, v: Seq<char>) -> Seq<char> {
    form_pair(encode_utf8(k), encode_utf8(v))
}

fn push_pair(out: &mut String, k: &str, v: &str)
    ensures
        final(out)@ == old(out)@ + pair(k@, v@),
{
    push_str(out, percent_encode(k, false).as_str());
    push_char(out, '=');
    push_str(out, percent_encode(v, false).as_str());
}

/// A form of two pairs.
pub open spec fn form2(k0: Seq<char>, v0: Seq<char>, k1: Seq<char>, v1: Seq<char>) -> Seq<char> {
    pair(k0, v0) + seq!['&'] + pair(k1, v1)
}

/// A form of three pairs.
pub open spec fn form3(
    k0: Seq<char>,
    v0: Seq<char>,
    k1: Seq<char>,
    v1: Seq<char>,
    k2: Seq<char>,
    v2: Seq<char>,
) -> Seq<char> {
    form2(k0, v0, k1, v1) + seq!['&'] + pair(k2, v2)
}

fn form_of2(k0: &str, v0: &str, k1: &str, v1: &str) -> (r: String)
    ensures
        r@ == form2(k0@, v0@, k1@, v1@),
{
    let mut r = String::new();
    push_pair(&mut r, k0, v0);
    push_char(&mut r, '&');
    push_pair(&mut r, k1, v1);
    r
}

fn form_of3(k0: &str, v0: &str, k1: &str, v1: &str, k2: &str, v2: &str) -> (r: String)
    ensures
        r@ == form3(k0@, v0@, k1@, v1@, k2@, v2@),
{
    let mut r = form_of2(k0, v0, k1, v1);
    push_char(&mut r, '&');
    push_pair(&mut r, k2, v2);
    r
}

fn form_of1(k: &str, v: &str) -> (r: String)
    ensures
        r@ == pair(k@, v@),
{
    let mut r = String::new();
    push_pair(&mut r, k, v);
    r
}

/// The error for a missing argument.
pub open spec fn missing_text(key: Seq<char>) -> Seq<char> {
    "Missing '"@ + key + "'"@
}

fn missing(key: &str) -> (s: Step)
    ensures
        s@ == fail_view(missing_text(key@)),
{
    let mut e = owned("Missing '");
    push_str(&mut e, key);
    push_str(&mut e, "'");
    Step::Done(Err(e))
}

/// The error when no sender number is known.
pub open spec fn no_sender_text() -> Seq<char> {
    "Missing 'from' number — set from_number in twilio.toml or pass 'from' arg"@
}

fn no_sender() -> (s: Step)
    ensures
        s@ == fail_view(no_sender_text()),
{
    Step::Done(Err(owned("Missing 'from' number — set from_number in twilio.toml or pass 'from' arg")))
}

/// The sender: the `from` argument, else the configured number.
pub open spec fn sender(cfg: TwilioConfig, args: Json) -> Option<Seq<char>> {
    match args.at("from"@).str_of() {
        Some(f) => Some(f),
        None => match cfg.from_number {
            Some(f) => Some(f@),
            None => None,
        },
    }
}

fn get_sender<'a>(cfg: &'a TwilioConfig, args: &'a Json) -> (r: Option<&'a str>)
    ensures
        r matches Some(f) ==> sender(*cfg, *args) == Some(f@),
        r is None ==> sender(*cfg, *args) is None,
{
    match get_str(args, "from") {
        Some(f) => Some(f),
        None => match &cfg.from_number {
            Some(f) => Some(f.as_str()),
            None => None,
        },
    }
}

/// The outcome of a call whose response reports errors in `message`.
pub open spec fn checked_view(resp: Json, text: Seq<char>) -> StepView {
    match resp.at("message"@).str_of() {
        Some(e) => fail_view("Twilio error: "@ + e),
        None => ok_view(text),
    }
}

fn checked(resp: &Json, text: String) -> (s: Step)
    ensures
        s@ == checked_view(*resp, text@),
{
    match get_str(resp, "message") {
        Some(e) => {
            let mut m = owned("Twilio error: ");
            push_str(&mut m, e);
            Step::Done(Err(m))
        },
        None => Step::Done(Ok(text)),
    }
}

/// A tool that makes one request: the request, then its outcome, read for an error message
/// when `check` holds.
pub open spec fn one_call(req: StepView, rs: Seq<Json>, check: bool, text: spec_fn(Json) -> Seq<char>) -> StepView {
    if rs.len() == 0 {
        req
    } else if check {
        checked_view(rs[0], text(rs[0]))
    } else {
        ok_view(text(rs[0]))
    }
}

/// `twilio_send_sms` and `twilio_send_whatsapp` (numbers prefixed with `whatsapp:`).
pub open spec fn message_view(cfg: TwilioConfig, args: Json, rs: Seq<Json>, whatsapp: bool) -> StepView {
    match args.at("to"@).str_of() {
        None => fail_view(missing_text("to"@)),
        Some(to_raw) => match args.at("body"@).str_of() {
            None => fail_view(missing_text("body"@)),
            Some(body) => match sender(cfg, args) {
                None => fail_view(no_sender_text()),
                Some(from_raw) => {
                    let to = if whatsapp { "whatsapp:"@ + to_raw } else { to_raw };
                    let from = if whatsapp { "whatsapp:"@ + from_raw } else { from_raw };
                    one_call(
                        form_view(
                            base_url(cfg.account_sid@) + "/Messages.json"@,
                            form3("To"@, to, "From"@, from, "Body"@, body),
                        ),
                        rs,
                        true,
                        |r: Json|
                            (if whatsapp { "WhatsApp message sent"@ } else { "SMS sent"@ })
                                + "\n  SID:    "@ + str_or(r, "sid"@, "?"@) + "\n  Status: "@
                                + str_or(r, "status"@, "?"@) + "\n  To:     "@ + to + "\n  From:   "@
                                + from,
                    )
                },
            },
        },
    }
}

fn send_message(cfg: &TwilioConfig, args: &Json, rs: &Vec<Json>, whatsapp: bool) -> (s: Step)
    ensures
        s@ == message_view(*cfg, *args, rs@, whatsapp),
{
    let to_raw = match get_str(args, "to") {
        None => return missing("to"),
        Some(t) => t,
    };
    let body = match get_str(args, "body") {
        None => return missing("body"),
        Some(b) => b,
    };
    let from_raw = match get_sender(cfg, args) {
        None => return no_sender(),
        Some(f) => f,
    };
    let to = if whatsapp {
        concat("whatsapp:", to_raw)
    } else {
        owned(to_raw)
    };
    let from = if whatsapp {
        concat("whatsapp:", from_raw)
    } else {
        owned(from_raw)
    };
    if rs.len() == 0 {
        let mut url = cfg.base();
        push_str(&mut url, "/Messages.json");
        return send_form(url, form_of3("To", to.as_str(), "From", from.as_str(), "Body", body));
    }
    let r = &rs[0];
    let mut out = if whatsapp {
        owned("WhatsApp message sent")
    } else {
        owned("SMS sent")
    };
    push_str(&mut out, "\n  SID:    ");
    push_str(&mut out, get_str_or(r, "sid", "?"));
    push_str(&mut out, "\n  Status: ");
    push_str(&mut out, get_str_or(r, "status", "?"));
    push_str(&mut out, "\n  To:     ");
    push_str(&mut out, to.as_str());
    push_str(&mut out, "\n  From:   ");
    push_str(&mut out, from.as_str());
    checked(r, out)
}

fn concat(a: &str, b: &str) -> (r: String)
    ensures
        r@ == a@ + b@,
{
    let mut r = owned(a);
    push_str(&mut r, b);
    r
}


/// The kinds of listed items.
#[derive(Clone, Copy)]
pub enum Listed {
    Message,
    Call,
    Number,
    Available,
    Service,
}

/// A boolean as `Display` writes it.
pub open spec fn bool_text(b: bool) -> Seq<char> {
    if b {
        "true"@
    } else {
        "false"@
    }
}

fn bool_str(b: bool) -> (r: &'static str)
    ensures
        r@ == bool_text(b),
{
    if b {
        "true"
    } else {
        "false"
    }
}

/// Member `key` of `j` as a boolean, `false` when it is not one.
pub open spec fn flag(j: Json, key: Seq<char>) -> bool {
    match j.at(key).bool_of() {
        Some(b) => b,
        None => false,
    }
}

fn get_flag(j: &Json, key: &str) -> (b: bool)
    ensures
        b == flag(*j, key@),
{
    match get_bool(j, key) {
        Some(b) => b,
        None => false,
    }
}

/// The date of a message or call: member `key`, else `date_created`, else `?`.
pub open spec fn date_of(j: Json, key: Seq<char>) -> Seq<char> {
    str_or(j, key, str_or(j, "date_created"@, "?"@))
}

fn get_date<'a>(j: &'a Json, key: &str) -> (r: &'a str)
    ensures
        r@ == date_of(*j, key@),
{
    get_str_or(j, key, get_str_or(j, "date_created", "?"))
}

/// The body of a message as listed: cut after 80 bytes with `…` when longer.
pub open spec fn preview(body: Seq<char>) -> Seq<char> {
    if encode_utf8(body).len() > 80 {
        byte_prefix_spec(body, 80) + "…"@
    } else {
        body
    }
}

/// The body of a listed message can be cut: it is at most 80 bytes long, or its 80th byte
/// ends a character.
pub open spec fn cut_ok(m: Json) -> bool {
    let b = str_or(m, "body"@, ""@);
    encode_utf8(b).len() > 80 ==> is_char_boundary(encode_utf8(b), 80)
}

/// A listed message.
pub open spec fn message_line(j: Json) -> Seq<char> {
    "\n  ["@ + str_or(j, "sid"@, "?"@) + "] "@ + str_or(j, "direction"@, "?"@) + " | "@ + str_or(
        j,
        "from"@,
        "?"@,
    ) + " → "@ + str_or(j, "to"@, "?"@) + " | "@ + str_or(j, "status"@, "?"@) + " | "@ + date_of(
        j,
        "date_sent"@,
    ) + "\n    "@ + preview(str_or(j, "body"@, ""@))
}

/// A listed call.
pub open spec fn call_line(j: Json) -> Seq<char> {
    "\n  ["@ + str_or(j, "sid"@, "?"@) + "] "@ + str_or(j, "direction"@, "?"@) + " | "@ + str_or(
        j,
        "from"@,
        "?"@,
    ) + " → "@ + str_or(j, "to"@, "?"@) + " | "@ + str_or(j, "status"@, "?"@) + " | "@ + str_or(
        j,
        "duration"@,
        "0"@,
    ) + "s | "@ + date_of(j, "start_time"@)
}

/// A listed number of the account.
pub open spec fn number_line(j: Json) -> Seq<char> {
    let caps = j.at("capabilities"@);
    "\n  ["@ + str_or(j, "sid"@, "?"@) + "] "@ + str_or(j, "phone_number"@, "?"@) + " ("@ + str_or(
        j,
        "friendly_name"@,
        ""@,
    ) + ") — SMS:"@ + bool_text(flag(caps, "sms"@)) + " Voice:"@ + bool_text(flag(caps, "voice"@))
        + " MMS:"@ + bool_text(flag(caps, "mms"@))
}

/// A listed number that can be bought.
pub open spec fn available_line(j: Json) -> Seq<char> {
    let caps = j.at("capabilities"@);
    "\n  "@ + str_or(j, "phone_number"@, "?"@) + " ("@ + str_or(j, "friendly_name"@, ""@) + ") — "@
        + str_or(j, "region"@, ""@) + " — SMS:"@ + bool_text(flag(caps, "SMS"@)) + " Voice:"@
        + bool_text(flag(caps, "voice"@))
}

/// A listed Verify service.
pub open spec fn service_line(j: Json) -> Seq<char> {
    "\n  ["@ + str_or(j, "sid"@, "?"@) + "] "@ + str_or(j, "friendly_name"@, "?"@) + " — created "@
        + str_or(j, "date_created"@, "?"@)
}

/// One listed item, starting with a line break.
pub open spec fn item_line(kind: Listed, j: Json) -> Seq<char> {
    match kind {
        Listed::Message => message_line(j),
        Listed::Call => call_line(j),
        Listed::Number => number_line(j),
        Listed::Available => available_line(j),
        Listed::Service => service_line(j),
    }
}

fn push_caps_flag(out: &mut String, j: &Json, key: &str)
    ensures
        final(out)@ == old(out)@ + bool_text(flag(j.at("capabilities"@), key@)),
{
    let b = match j.get("capabilities") {
        Some(c) => get_flag(c, key),
        None => false,
    };
    push_str(out, bool_str(b));
}

fn message_text(j: &Json) -> (r: String)
    requires
        cut_ok(*j),
    ensures
        r@ == message_line(*j),
{
    let mut out = String::new();
    push_str(&mut out, "\n  [");
    push_str(&mut out, get_str_or(j, "sid", "?"));
    push_str(&mut out, "] ");
    push_str(&mut out, get_str_or(j, "direction", "?"));
    push_str(&mut out, " | ");
    push_str(&mut out, get_str_or(j, "from", "?"));
    push_str(&mut out, " → ");
    push_str(&mut out, get_str_or(j, "to", "?"));
    push_str(&mut out, " | ");
    push_str(&mut out, get_str_or(j, "status", "?"));
    push_str(&mut out, " | ");
    push_str(&mut out, get_date(j, "date_sent"));
    push_str(&mut out, "\n    ");
    let body = get_str_or(j, "body", "");
    if byte_len(body) > 80 {
        push_str(&mut out, byte_prefix(body, 80));
        push_str(&mut out, "…");
    } else {
        push_str(&mut out, body);
    }
    out
}

fn call_text(j: &Json) -> (r: String)
    ensures
        r@ == call_line(*j),
{
    let mut out = String::new();
    push_str(&mut out, "\n  [");
    push_str(&mut out, get_str_or(j, "sid", "?"));
    push_str(&mut out, "] ");
    push_str(&mut out, get_str_or(j, "direction", "?"));
    push_str(&mut out, " | ");
    push_str(&mut out, get_str_or(j, "from", "?"));
    push_str(&mut out, " → ");
    push_str(&mut out, get_str_or(j, "to", "?"));
    push_str(&mut out, " | ");
    push_str(&mut out, get_str_or(j, "status", "?"));
    push_str(&mut out, " | ");
    push_str(&mut out, get_str_or(j, "duration", "0"));
    push_str(&mut out, "s | ");
    push_str(&mut out, get_date(j, "start_time"));
    out
}

fn number_text(j: &Json) -> (r: String)
    ensures
        r@ == number_line(*j),
{
    let mut out = String::new();
    push_str(&mut out, "\n  [");
    push_str(&mut out, get_str_or(j, "sid", "?"));
    push_str(&mut out, "] ");
    push_str(&mut out, get_str_or(j, "phone_number", "?"));
    push_str(&mut out, " (");
    push_str(&mut out, get_str_or(j, "friendly_name", ""));
    push_str(&mut out, ") — SMS:");
    push_caps_flag(&mut out, j, "sms");
    push_str(&mut out, " Voice:");
    push_caps_flag(&mut out, j, "voice");
    push_str(&mut out, " MMS:");
    push_caps_flag(&mut out, j, "mms");
    out
}

fn available_text(j: &Json) -> (r: String)
    ensures
        r@ == available_line(*j),
{
    let mut out = String::new();
    push_str(&mut out, "\n  ");
    push_str(&mut out, get_str_or(j, "phone_number", "?"));
    push_str(&mut out, " (");
    push_str(&mut out, get_str_or(j, "friendly_name", ""));
    push_str(&mut out, ") — ");
    push_str(&mut out, get_str_or(j, "region", ""));
    push_str(&mut out, " — SMS:");
    push_caps_flag(&mut out, j, "SMS");
    push_str(&mut out, " Voice:");
    push_caps_flag(&mut out, j, "voice");
    out
}

fn service_text(j: &Json) -> (r: String)
    ensures
        r@ == service_line(*j),
{
    let mut out = String::new();
    push_str(&mut out, "\n  [");
    push_str(&mut out, get_str_or(j, "sid", "?"));
    push_str(&mut out, "] ");
    push_str(&mut out, get_str_or(j, "friendly_name", "?"));
    push_str(&mut out, " — created ");
    push_str(&mut out, get_str_or(j, "date_created", "?"));
    out
}

fn push_item(out: &mut String, kind: Listed, j: &Json)
    requires
        kind == Listed::Message ==> cut_ok(*j),
    ensures
        final(out)@ == old(out)@ + item_line(kind, *j),
{
    match kind {
        Listed::Message => push_str(out, message_text(j).as_str()),
        Listed::Call => push_str(out, call_text(j).as_str()),
        Listed::Number => push_str(out, number_text(j).as_str()),
        Listed::Available => push_str(out, available_text(j).as_str()),
        Listed::Service => push_str(out, service_text(j).as_str()),
    }
}

/// The listed items, one after the other.
pub open spec fn lines(kind: Listed, items: Seq<Json>) -> Seq<char>
    decreases items.len(),
{
    if items.len() == 0 {
        seq![]
    } else {
        lines(kind, items.drop_last()) + item_line(kind, items.last())
    }
}

/// The array member `key` of a response, empty when it is not an array.
pub open spec fn items_of(r: Json, key: Seq<char>) -> Seq<Json> {
    match r.at(key).array_of() {
        Some(a) => a,
        None => seq![],
    }
}

/// The items that are shown: the first 20 when `capped`, else all.
pub open spec fn shown(items: Seq<Json>, capped: bool) -> Seq<Json> {
    if capped && items.len() > 20 {
        items.take(20)
    } else {
        items
    }
}

/// A list response: `empty` when member `key` has no item, else `title`, the count, `):` and
/// the items shown.
pub open spec fn listing(
    kind: Listed,
    r: Json,
    key: Seq<char>,
    title: Seq<char>,
    empty: Seq<char>,
    capped: bool,
) -> Seq<char> {
    let items = items_of(r, key);
    if items.len() == 0 {
        empty
    } else {
        title + dec_nat(items.len()) + "):\n"@ + lines(kind, shown(items, capped))
    }
}

/// Every message of a list response can be cut for its preview.
pub open spec fn cuts_ok(kind: Listed, r: Json, key: Seq<char>) -> bool {
    kind == Listed::Message ==> forall|i: int|
        0 <= i < items_of(r, key).len() ==> #[trigger] cut_ok(items_of(r, key)[i])
}

fn listing_exec(kind: Listed, r: &Json, key: &str, title: &str, empty: &str, capped: bool) -> (t: String)
    requires
        cuts_ok(kind, *r, key@),
    ensures
        t@ == listing(kind, *r, key@, title@, empty@, capped),
{
    let items = match get_array(r, key) {
        Some(a) => a,
        None => return owned(empty),
    };
    let n = items.len();
    if n == 0 {
        return owned(empty);
    }
    let mut out = owned(title);
    push_u64(&mut out, n as u64);
    push_str(&mut out, "):\n");
    let shown_n = if capped && n > 20 {
        20
    } else {
        n
    };
    assert(items_of(*r, key@) == items@);
    let ghost sh = shown(items@, capped);
    assert(sh == items@.take(shown_n as int));
    for i in 0..shown_n
        invariant
            shown_n <= n,
            n == items@.len(),
            sh == items@.take(shown_n as int),
            kind == Listed::Message ==> forall|k: int| 0 <= k < n ==> #[trigger] cut_ok(items@[k]),
            out@ == title@ + dec_nat(n as nat) + "):\n"@ + lines(kind, items@.take(i as int)),
    {
        assert(items@.take(i + 1).drop_last() == items@.take(i as int));
        assert(items@.take(i + 1).last() == items@[i as int]);
        push_item(&mut out, kind, &items[i]);
    }
    out
}


/// The page size asked for: the `limit` argument, 20 by default, at most 100 when `capped`.
pub open spec fn page_size(args: Json, capped: bool) -> nat {
    let l: nat = match args.at("limit"@).u64_of() {
        Some(n) => n as nat,
        None => 20,
    };
    if capped && l > 100 {
        100
    } else {
        l
    }
}

fn get_page_size(args: &Json, capped: bool) -> (n: u64)
    ensures
        n == page_size(*args, capped),
{
    let l = match get_u64(args, "limit") {
        Some(n) => n,
        None => 20,
    };
    if capped && l > 100 {
        100
    } else {
        l
    }
}

/// A query parameter added when the argument is given: `prefix` and its encoding.
pub open spec fn opt_param(prefix: Seq<char>, arg: Option<Seq<char>>) -> Seq<char> {
    match arg {
        Some(v) => prefix + url_enc(v),
        None => seq![],
    }
}

fn push_opt_param(out: &mut String, prefix: &str, args: &Json, key: &str)
    ensures
        final(out)@ == old(out)@ + opt_param(prefix@, args.at(key@).str_of()),
{
    match get_str(args, key) {
        Some(v) => {
            push_str(out, prefix);
            push_str(out, urlencoding_simple(v).as_str());
        },
        None => {},
    }
}

/// `twilio_list_messages`.
pub open spec fn list_messages_view(cfg: TwilioConfig, args: Json, rs: Seq<Json>) -> StepView {
    one_call(
        send_view(
            Method::Get,
            base_url(cfg.account_sid@) + "/Messages.json?PageSize="@ + dec_nat(page_size(args, true))
                + opt_param("&From="@, args.at("from"@).str_of()) + opt_param(
                "&To="@,
                args.at("to"@).str_of(),
            ),
            None,
        ),
        rs,
        false,
        |r: Json| listing(Listed::Message, r, "messages"@, "Messages ("@, "No messages found."@, false),
    )
}

fn list_messages(cfg: &TwilioConfig, args: &Json, rs: &Vec<Json>) -> (s: Step)
    requires
        rs@.len() >= 1 ==> cuts_ok(Listed::Message, rs@[0], "messages"@),
    ensures
        s@ == list_messages_view(*cfg, *args, rs@),
{
    if rs.len() == 0 {
        let mut url = cfg.base();
        push_str(&mut url, "/Messages.json?PageSize=");
        push_u64(&mut url, get_page_size(args, true));
        push_opt_param(&mut url, "&From=", args, "from");
        push_opt_param(&mut url, "&To=", args, "to");
        return send(Method::Get, url, None);
    }
    Step::Done(
        Ok(
            listing_exec(
                Listed::Message,
                &rs[0],
                "messages",
                "Messages (",
                "No messages found.",
                false,
            ),
        ),
    )
}

/// `twilio_get_message`.
pub open spec fn get_message_view(cfg: TwilioConfig, args: Json, rs: Seq<Json>) -> StepView {
    match args.at("message_sid"@).str_of() {
        None => fail_view(missing_text("message_sid"@)),
        Some(sid) => one_call(
            send_view(Method::Get, base_url(cfg.account_sid@) + "/Messages/"@ + sid + ".json"@, None),
            rs,
            true,
            |m: Json|
                "Message "@ + str_or(m, "sid"@, sid) + "\n  Direction: "@ + str_or(
                    m,
                    "direction"@,
                    "?"@,
                ) + "\n  Status:    "@ + str_or(m, "status"@, "?"@) + "\n  From:      "@ + str_or(
                    m,
                    "from"@,
                    "?"@,
                ) + "\n  To:        "@ + str_or(m, "to"@, "?"@) + "\n  Date:      "@ + date_of(
                    m,
                    "date_sent"@,
                ) + "\n  Price:     "@ + str_or(m, "price"@, "?"@) + " "@ + str_or(
                    m,
                    "price_unit"@,
                    ""@,
                ) + "\n  Body:\n    "@ + str_or(m, "body"@, ""@),
        ),
    }
}

fn get_message(cfg: &TwilioConfig, args: &Json, rs: &Vec<Json>) -> (s: Step)
    ensures
        s@ == get_message_view(*cfg, *args, rs@),
{
    let sid = match get_str(args, "message_sid") {
        None => return missing("message_sid"),
        Some(x) => x,
    };
    if rs.len() == 0 {
        let mut url = cfg.base();
        push_str(&mut url, "/Messages/");
        push_str(&mut url, sid);
        push_str(&mut url, ".json");
        return send(Method::Get, url, None);
    }
    let m = &rs[0];
    let mut out = owned("Message ");
    push_str(&mut out, get_str_or(m, "sid", sid));
    push_str(&mut out, "\n  Direction: ");
    push_str(&mut out, get_str_or(m, "direction", "?"));
    push_str(&mut out, "\n  Status:    ");
    push_str(&mut out, get_str_or(m, "status", "?"));
    push_str(&mut out, "\n  From:      ");
    push_str(&mut out, get_str_or(m, "from", "?"));
    push_str(&mut out, "\n  To:        ");
    push_str(&mut out, get_str_or(m, "to", "?"));
    push_str(&mut out, "\n  Date:      ");
    push_str(&mut out, get_date(m, "date_sent"));
    push_str(&mut out, "\n  Price:     ");
    push_str(&mut out, get_str_or(m, "price", "?"));
    push_str(&mut out, " ");
    push_str(&mut out, get_str_or(m, "price_unit", ""));
    push_str(&mut out, "\n  Body:\n    ");
    push_str(&mut out, get_str_or(m, "body", ""));
    checked(m, out)
}

/// The TwiML URL of a call, the demo document by default.
pub open spec fn twiml_of(args: Json) -> Seq<char> {
    str_or(args, "url"@, "http://demo.twilio.com/docs/voice.xml"@)
}

/// `twilio_create_call`.
pub open spec fn create_call_view(cfg: TwilioConfig, args: Json, rs: Seq<Json>) -> StepView {
    match args.at("to"@).str_of() {
        None => fail_view(missing_text("to"@)),
        Some(to) => match sender(cfg, args) {
            None => fail_view(no_sender_text()),
            Some(from) => one_call(
                form_view(
                    base_url(cfg.account_sid@) + "/Calls.json"@,
                    form3("To"@, to, "From"@, from, "Url"@, twiml_of(args)),
                ),
                rs,
                true,
                |r: Json|
                    "Call created\n  SID:      "@ + str_or(r, "sid"@, "?"@) + "\n  Status:   "@
                        + str_or(r, "status"@, "?"@) + "\n  To:       "@ + to + "\n  From:     "@
                        + from + "\n  TwiML:    "@ + twiml_of(args),
            ),
        },
    }
}

fn create_call(cfg: &TwilioConfig, args: &Json, rs: &Vec<Json>) -> (s: Step)
    ensures
        s@ == create_call_view(*cfg, *args, rs@),
{
    let to = match get_str(args, "to") {
        None => return missing("to"),
        Some(t) => t,
    };
    let twiml = get_str_or(args, "url", "http://demo.twilio.com/docs/voice.xml");
    let from = match get_sender(cfg, args) {
        None => return no_sender(),
        Some(f) => f,
    };
    if rs.len() == 0 {
        let mut url = cfg.base();
        push_str(&mut url, "/Calls.json");
        return send_form(url, form_of3("To", to, "From", from, "Url", twiml));
    }
    let r = &rs[0];
    let mut out = owned("Call created\n  SID:      ");
    push_str(&mut out, get_str_or(r, "sid", "?"));
    push_str(&mut out, "\n  Status:   ");
    push_str(&mut out, get_str_or(r, "status", "?"));
    push_str(&mut out, "\n  To:       ");
    push_str(&mut out, to);
    push_str(&mut out, "\n  From:     ");
    push_str(&mut out, from);
    push_str(&mut out, "\n  TwiML:    ");
    push_str(&mut out, twiml);
    checked(r, out)
}

/// `twilio_list_calls`.
pub open spec fn list_calls_view(cfg: TwilioConfig, args: Json, rs: Seq<Json>) -> StepView {
    one_call(
        send_view(
            Method::Get,
            base_url(cfg.account_sid@) + "/Calls.json?PageSize="@ + dec_nat(page_size(args, true))
                + opt_param("&Status="@, args.at("status"@).str_of()),
            None,
        ),
        rs,
        false,
        |r: Json| listing(Listed::Call, r, "calls"@, "Calls ("@, "No calls found."@, false),
    )
}

fn list_calls(cfg: &TwilioConfig, args: &Json, rs: &Vec<Json>) -> (s: Step)
    ensures
        s@ == list_calls_view(*cfg, *args, rs@),
{
    if rs.len() == 0 {
        let mut url = cfg.base();
        push_str(&mut url, "/Calls.json?PageSize=");
        push_u64(&mut url, get_page_size(args, true));
        push_opt_param(&mut url, "&Status=", args, "status");
        return send(Method::Get, url, None);
    }
    Step::Done(Ok(listing_exec(Listed::Call, &rs[0], "calls", "Calls (", "No calls found.", false)))
}

/// `twilio_get_call`.
pub open spec fn get_call_view(cfg: TwilioConfig, args: Json, rs: Seq<Json>) -> StepView {
    match args.at("call_sid"@).str_of() {
        None => fail_view(missing_text("call_sid"@)),
        Some(sid) => one_call(
            send_view(Method::Get, base_url(cfg.account_sid@) + "/Calls/"@ + sid + ".json"@, None),
            rs,
            true,
            |c: Json|
                "Call "@ + str_or(c, "sid"@, sid) + "\n  Direction:  "@ + str_or(
                    c,
                    "direction"@,
                    "?"@,
                ) + "\n  Status:     "@ + str_or(c, "status"@, "?"@) + "\n  From:       "@ + str_or(
                    c,
                    "from"@,
                    "?"@,
                ) + "\n  To:         "@ + str_or(c, "to"@, "?"@) + "\n  Start time: "@ + str_or(
                    c,
                    "start_time"@,
                    "?"@,
                ) + "\n  End time:   "@ + str_or(c, "end_time"@, "?"@) + "\n  Duration:   "@
                    + str_or(c, "duration"@, "0"@) + "s\n  Price:      "@ + str_or(
                    c,
                    "price"@,
                    "?"@,
                ) + " "@ + str_or(c, "price_unit"@, ""@),
        ),
    }
}

fn get_call(cfg: &TwilioConfig, args: &Json, rs: &Vec<Json>) -> (s: Step)
    ensures
        s@ == get_call_view(*cfg, *args, rs@),
{
    let sid = match get_str(args, "call_sid") {
        None => return missing("call_sid"),
        Some(x) => x,
    };
    if rs.len() == 0 {
        let mut url = cfg.base();
        push_str(&mut url, "/Calls/");
        push_str(&mut url, sid);
        push_str(&mut url, ".json");
        return send(Method::Get, url, None);
    }
    let c = &rs[0];
    let mut out = owned("Call ");
    push_str(&mut out, get_str_or(c, "sid", sid));
    push_str(&mut out, "\n  Direction:  ");
    push_str(&mut out, get_str_or(c, "direction", "?"));
    push_str(&mut out, "\n  Status:     ");
    push_str(&mut out, get_str_or(c, "status", "?"));
    push_str(&mut out, "\n  From:       ");
    push_str(&mut out, get_str_or(c, "from", "?"));
    push_str(&mut out, "\n  To:         ");
    push_str(&mut out, get_str_or(c, "to", "?"));
    push_str(&mut out, "\n  Start time: ");
    push_str(&mut out, get_str_or(c, "start_time", "?"));
    push_str(&mut out, "\n  End time:   ");
    push_str(&mut out, get_str_or(c, "end_time", "?"));
    push_str(&mut out, "\n  Duration:   ");
    push_str(&mut out, get_str_or(c, "duration", "0"));
    push_str(&mut out, "s\n  Price:      ");
    push_str(&mut out, get_str_or(c, "price", "?"));
    push_str(&mut out, " ");
    push_str(&mut out, get_str_or(c, "price_unit", ""));
    checked(c, out)
}


/// `twilio_list_numbers`.
pub open spec fn list_numbers_view(cfg: TwilioConfig, args: Json, rs: Seq<Json>) -> StepView {
    one_call(
        send_view(
            Method::Get,
            base_url(cfg.account_sid@) + "/IncomingPhoneNumbers.json?PageSize="@ + dec_nat(
                page_size(args, false),
            ),
            None,
        ),
        rs,
        false,
        |r: Json|
            listing(
                Listed::Number,
                r,
                "incoming_phone_numbers"@,
                "Purchased numbers ("@,
                "No phone numbers found on this account."@,
                false,
            ),
    )
}

fn list_numbers(cfg: &TwilioConfig, args: &Json, rs: &Vec<Json>) -> (s: Step)
    ensures
        s@ == list_numbers_view(*cfg, *args, rs@),
{
    if rs.len() == 0 {
        let mut url = cfg.base();
        push_str(&mut url, "/IncomingPhoneNumbers.json?PageSize=");
        push_u64(&mut url, get_page_size(args, false));
        return send(Method::Get, url, None);
    }
    Step::Done(
        Ok(
            listing_exec(
                Listed::Number,
                &rs[0],
                "incoming_phone_numbers",
                "Purchased numbers (",
                "No phone numbers found on this account.",
                false,
            ),
        ),
    )
}

/// A boolean argument, `true` by default.
pub open spec fn flag_or_true(args: Json, key: Seq<char>) -> bool {
    match args.at(key).bool_of() {
        Some(b) => b,
        None => true,
    }
}

/// `twilio_search_available_numbers`: at most 20 numbers are shown.
pub open spec fn search_view(cfg: TwilioConfig, args: Json, rs: Seq<Json>) -> StepView {
    match args.at("country_code"@).str_of() {
        None => fail_view(missing_text("country_code"@)),
        Some(cc) => one_call(
            send_view(
                Method::Get,
                base_url(cfg.account_sid@) + "/AvailablePhoneNumbers/"@ + cc + "/Local.json"@
                    + "?SmsEnabled="@ + bool_text(flag_or_true(args, "sms_enabled"@))
                    + "&VoiceEnabled="@ + bool_text(flag_or_true(args, "voice_enabled"@))
                    + opt_param("&AreaCode="@, args.at("area_code"@).str_of()),
                None,
            ),
            rs,
            false,
            |r: Json|
                listing(
                    Listed::Available,
                    r,
                    "available_phone_numbers"@,
                    "Available numbers in "@ + cc + " ("@,
                    "No available numbers found in "@ + cc + " with the given filters."@,
                    true,
                ),
        ),
    }
}

fn search_available_numbers(cfg: &TwilioConfig, args: &Json, rs: &Vec<Json>) -> (s: Step)
    ensures
        s@ == search_view(*cfg, *args, rs@),
{
    let cc = match get_str(args, "country_code") {
        None => return missing("country_code"),
        Some(c) => c,
    };
    if rs.len() == 0 {
        let sms = match get_bool(args, "sms_enabled") {
            Some(b) => b,
            None => true,
        };
        let voice = match get_bool(args, "voice_enabled") {
            Some(b) => b,
            None => true,
        };
        let mut url = owned("https://api.twilio.com/2010-04-01/Accounts/");
        push_str(&mut url, cfg.account_sid.as_str());
        push_str(&mut url, "/AvailablePhoneNumbers/");
        push_str(&mut url, cc);
        push_str(&mut url, "/Local.json");
        push_str(&mut url, "?SmsEnabled=");
        push_str(&mut url, bool_str(sms));
        push_str(&mut url, "&VoiceEnabled=");
        push_str(&mut url, bool_str(voice));
        push_opt_param(&mut url, "&AreaCode=", args, "area_code");
        return send(Method::Get, url, None);
    }
    let title = concat3("Available numbers in ", cc, " (");
    let empty = concat3("No available numbers found in ", cc, " with the given filters.");
    Step::Done(
        Ok(
            listing_exec(
                Listed::Available,
                &rs[0],
                "available_phone_numbers",
                title.as_str(),
                empty.as_str(),
                true,
            ),
        ),
    )
}

fn concat3(a: &str, b: &str, c: &str) -> (r: String)
    ensures
        r@ == a@ + b@ + c@,
{
    let mut r = owned(a);
    push_str(&mut r, b);
    push_str(&mut r, c);
    r
}

/// `twilio_purchase_number`.
pub open spec fn purchase_view(cfg: TwilioConfig, args: Json, rs: Seq<Json>) -> StepView {
    match args.at("phone_number"@).str_of() {
        None => fail_view(missing_text("phone_number"@)),
        Some(pn) => one_call(
            form_view(base_url(cfg.account_sid@) + "/IncomingPhoneNumbers.json"@, pair("PhoneNumber"@, pn)),
            rs,
            true,
            |r: Json|
                "Number purchased\n  SID:           "@ + str_or(r, "sid"@, "?"@)
                    + "\n  Number:        "@ + str_or(r, "phone_number"@, "?"@)
                    + "\n  Friendly name: "@ + str_or(r, "friendly_name"@, "?"@)
                    + "\n  Date created:  "@ + str_or(r, "date_created"@, "?"@),
        ),
    }
}

fn purchase_number(cfg: &TwilioConfig, args: &Json, rs: &Vec<Json>) -> (s: Step)
    ensures
        s@ == purchase_view(*cfg, *args, rs@),
{
    let pn = match get_str(args, "phone_number") {
        None => return missing("phone_number"),
        Some(p) => p,
    };
    if rs.len() == 0 {
        let mut url = cfg.base();
        push_str(&mut url, "/IncomingPhoneNumbers.json");
        return send_form(url, form_of1("PhoneNumber", pn));
    }
    let r = &rs[0];
    let mut out = owned("Number purchased\n  SID:           ");
    push_str(&mut out, get_str_or(r, "sid", "?"));
    push_str(&mut out, "\n  Number:        ");
    push_str(&mut out, get_str_or(r, "phone_number", "?"));
    push_str(&mut out, "\n  Friendly name: ");
    push_str(&mut out, get_str_or(r, "friendly_name", "?"));
    push_str(&mut out, "\n  Date created:  ");
    push_str(&mut out, get_str_or(r, "date_created", "?"));
    checked(r, out)
}

/// The outcome of a deletion, from the status it was answered with
/// (`{"success": .., "status": ..}`).
pub open spec fn deleted_view(r: Json) -> StepView {
    if r.at("success"@).bool_of() == Some(true) {
        ok_view("Deleted successfully"@)
    } else {
        fail_view("Delete failed: "@ + str_or(r, "status"@, ""@))
    }
}

/// `twilio_release_number`.
pub open spec fn release_view(cfg: TwilioConfig, args: Json, rs: Seq<Json>) -> StepView {
    match args.at("sid"@).str_of() {
        None => fail_view(missing_text("sid"@)),
        Some(sid) => if rs.len() == 0 {
            status_view(
                Method::Delete,
                base_url(cfg.account_sid@) + "/IncomingPhoneNumbers/"@ + sid + ".json"@,
            )
        } else {
            deleted_view(rs[0])
        },
    }
}

fn release_number(cfg: &TwilioConfig, args: &Json, rs: &Vec<Json>) -> (s: Step)
    ensures
        s@ == release_view(*cfg, *args, rs@),
{
    let sid = match get_str(args, "sid") {
        None => return missing("sid"),
        Some(x) => x,
    };
    if rs.len() == 0 {
        let mut url = cfg.base();
        push_str(&mut url, "/IncomingPhoneNumbers/");
        push_str(&mut url, sid);
        push_str(&mut url, ".json");
        return send_status(Method::Delete, url);
    }
    let r = &rs[0];
    match get_bool(r, "success") {
        Some(true) => Step::Done(Ok(owned("Deleted successfully"))),
        _ => Step::Done(Err(concat("Delete failed: ", get_str_or(r, "status", "")))),
    }
}

/// `twilio_create_verify_service`.
pub open spec fn create_service_view(args: Json, rs: Seq<Json>) -> StepView {
    match args.at("friendly_name"@).str_of() {
        None => fail_view(missing_text("friendly_name"@)),
        Some(name) => one_call(
            form_view("https://verify.twilio.com/v2/Services"@, pair("FriendlyName"@, name)),
            rs,
            true,
            |r: Json|
                "Verify service created\n  SID:           "@ + str_or(r, "sid"@, "?"@)
                    + "\n  Friendly name: "@ + str_or(r, "friendly_name"@, "?"@)
                    + "\n  Date created:  "@ + str_or(r, "date_created"@, "?"@),
        ),
    }
}

fn create_verify_service(args: &Json, rs: &Vec<Json>) -> (s: Step)
    ensures
        s@ == create_service_view(*args, rs@),
{
    let name = match get_str(args, "friendly_name") {
        None => return missing("friendly_name"),
        Some(n) => n,
    };
    if rs.len() == 0 {
        return send_form(owned("https://verify.twilio.com/v2/Services"), form_of1("FriendlyName", name));
    }
    let r = &rs[0];
    let mut out = owned("Verify service created\n  SID:           ");
    push_str(&mut out, get_str_or(r, "sid", "?"));
    push_str(&mut out, "\n  Friendly name: ");
    push_str(&mut out, get_str_or(r, "friendly_name", "?"));
    push_str(&mut out, "\n  Date created:  ");
    push_str(&mut out, get_str_or(r, "date_created", "?"));
    checked(r, out)
}

/// `twilio_list_verify_services`.
pub open spec fn list_services_view(rs: Seq<Json>) -> StepView {
    one_call(
        send_view(Method::Get, "https://verify.twilio.com/v2/Services"@, None),
        rs,
        false,
        |r: Json|
            listing(
                Listed::Service,
                r,
                "services"@,
                "Verify services ("@,
                "No Verify services found."@,
                false,
            ),
    )
}

fn list_verify_services(rs: &Vec<Json>) -> (s: Step)
    ensures
        s@ == list_services_view(rs@),
{
    if rs.len() == 0 {
        return send(Method::Get, owned("https://verify.twilio.com/v2/Services"), None);
    }
    Step::Done(
        Ok(
            listing_exec(
                Listed::Service,
                &rs[0],
                "services",
                "Verify services (",
                "No Verify services found.",
                false,
            ),
        ),
    )
}

/// `twilio_send_verification`: the channel is `sms` by default.
pub open spec fn send_verification_view(args: Json, rs: Seq<Json>) -> StepView {
    match args.at("service_sid"@).str_of() {
        None => fail_view(missing_text("service_sid"@)),
        Some(ss) => match args.at("to"@).str_of() {
            None => fail_view(missing_text("to"@)),
            Some(to) => {
                let channel = str_or(args, "channel"@, "sms"@);
                one_call(
                    form_view(
                        "https://verify.twilio.com/v2/Services/"@ + ss + "/Verifications"@,
                        form2("To"@, to, "Channel"@, channel),
                    ),
                    rs,
                    true,
                    |r: Json|
                        "Verification sent\n  SID:     "@ + str_or(r, "sid"@, "?"@) + "\n  Status:  "@
                            + str_or(r, "status"@, "?"@) + "\n  To:      "@ + to + "\n  Channel: "@
                            + channel,
                )
            },
        },
    }
}

fn send_verification(args: &Json, rs: &Vec<Json>) -> (s: Step)
    ensures
        s@ == send_verification_view(*args, rs@),
{
    let ss = match get_str(args, "service_sid") {
        None => return missing("service_sid"),
        Some(x) => x,
    };
    let to = match get_str(args, "to") {
        None => return missing("to"),
        Some(t) => t,
    };
    let channel = get_str_or(args, "channel", "sms");
    if rs.len() == 0 {
        return send_form(
            concat3("https://verify.twilio.com/v2/Services/", ss, "/Verifications"),
            form_of2("To", to, "Channel", channel),
        );
    }
    let r = &rs[0];
    let mut out = owned("Verification sent\n  SID:     ");
    push_str(&mut out, get_str_or(r, "sid", "?"));
    push_str(&mut out, "\n  Status:  ");
    push_str(&mut out, get_str_or(r, "status", "?"));
    push_str(&mut out, "\n  To:      ");
    push_str(&mut out, to);
    push_str(&mut out, "\n  Channel: ");
    push_str(&mut out, channel);
    checked(r, out)
}

/// `twilio_check_verification`.
pub open spec fn check_verification_view(args: Json, rs: Seq<Json>) -> StepView {
    match args.at("service_sid"@).str_of() {
        None => fail_view(missing_text("service_sid"@)),
        Some(ss) => match args.at("to"@).str_of() {
            None => fail_view(missing_text("to"@)),
            Some(to) => match args.at("code"@).str_of() {
                None => fail_view(missing_text("code"@)),
                Some(code) => one_call(
                    form_view(
                        "https://verify.twilio.com/v2/Services/"@ + ss + "/VerificationCheck"@,
                        form2("To"@, to, "Code"@, code),
                    ),
                    rs,
                    true,
                    |r: Json|
                        "Verification check\n  Status: "@ + str_or(r, "status"@, "?"@)
                            + "\n  Valid:  "@ + bool_text(flag(r, "valid"@)) + "\n  To:     "@ + to,
                ),
            },
        },
    }
}

fn check_verification(args: &Json, rs: &Vec<Json>) -> (s: Step)
    ensures
        s@ == check_verification_view(*args, rs@),
{
    let ss = match get_str(args, "service_sid") {
        None => return missing("service_sid"),
        Some(x) => x,
    };
    let to = match get_str(args, "to") {
        None => return missing("to"),
        Some(t) => t,
    };
    let code = match get_str(args, "code") {
        None => return missing("code"),
        Some(c) => c,
    };
    if rs.len() == 0 {
        return send_form(
            concat3("https://verify.twilio.com/v2/Services/", ss, "/VerificationCheck"),
            form_of2("To", to, "Code", code),
        );
    }
    let r = &rs[0];
    let mut out = owned("Verification check\n  Status: ");
    push_str(&mut out, get_str_or(r, "status", "?"));
    push_str(&mut out, "\n  Valid:  ");
    push_str(&mut out, bool_str(get_flag(r, "valid")));
    push_str(&mut out, "\n  To:     ");
    push_str(&mut out, to);
    checked(r, out)
}

/// `twilio_lookup_phone_number`.
pub open spec fn lookup_view(args: Json, rs: Seq<Json>) -> StepView {
    match args.at("phone_number"@).str_of() {
        None => fail_view(missing_text("phone_number"@)),
        Some(pn) => one_call(
            send_view(
                Method::Get,
                "https://lookups.twilio.com/v1/PhoneNumbers/"@ + url_enc(pn)
                    + "?Type=carrier&Type=caller-name"@,
                None,
            ),
            rs,
            true,
            |r: Json|
                "Phone number lookup: "@ + str_or(r, "phone_number"@, pn) + "\n  National format: "@
                    + str_or(r, "national_format"@, "?"@) + "\n  Country:         "@ + str_or(
                    r,
                    "country_code"@,
                    "?"@,
                ) + "\n  Line type:       "@ + str_or(r.at("carrier"@), "type"@, "?"@)
                    + "\n  Carrier:         "@ + str_or(r.at("carrier"@), "name"@, "?"@)
                    + "\n  Caller name:     "@ + str_or(r.at("caller_name"@), "caller_name"@, "?"@)
                    + " ("@ + str_or(r.at("caller_name"@), "caller_type"@, "?"@) + ")"@,
        ),
    }
}

fn lookup_phone_number(args: &Json, rs: &Vec<Json>) -> (s: Step)
    ensures
        s@ == lookup_view(*args, rs@),
{
    let pn = match get_str(args, "phone_number") {
        None => return missing("phone_number"),
        Some(p) => p,
    };
    if rs.len() == 0 {
        let mut url = owned("https://lookups.twilio.com/v1/PhoneNumbers/");
        push_str(&mut url, urlencoding_simple(pn).as_str());
        push_str(&mut url, "?Type=carrier&Type=caller-name");
        return send(Method::Get, url, None);
    }
    let r = &rs[0];
    let mut out = owned("Phone number lookup: ");
    push_str(&mut out, get_str_or(r, "phone_number", pn));
    push_str(&mut out, "\n  National format: ");
    push_str(&mut out, get_str_or(r, "national_format", "?"));
    push_str(&mut out, "\n  Country:         ");
    push_str(&mut out, get_str_or(r, "country_code", "?"));
    push_str(&mut out, "\n  Line type:       ");
    push_str(&mut out, get_nested_str_or(r, "carrier", "type", "?"));
    push_str(&mut out, "\n  Carrier:         ");
    push_str(&mut out, get_nested_str_or(r, "carrier", "name", "?"));
    push_str(&mut out, "\n  Caller name:     ");
    push_str(&mut out, get_nested_str_or(r, "caller_name", "caller_name", "?"));
    push_str(&mut out, " (");
    push_str(&mut out, get_nested_str_or(r, "caller_name", "caller_type", "?"));
    push_str(&mut out, ")");
    checked(r, out)
}


/// What a call of Twilio tool `name` with `args` does next, given the responses so far.
pub open spec fn handle_view(cfg: TwilioConfig, name: Seq<char>, args: Json, rs: Seq<Json>) -> StepView {
    if name == "twilio_send_sms"@ {
        message_view(cfg, args, rs, false)
    } else if name == "twilio_send_whatsapp"@ {
        message_view(cfg, args, rs, true)
    } else if name == "twilio_list_messages"@ {
        list_messages_view(cfg, args, rs)
    } else if name == "twilio_get_message"@ {
        get_message_view(cfg, args, rs)
    } else if name == "twilio_create_call"@ {
        create_call_view(cfg, args, rs)
    } else if name == "twilio_list_calls"@ {
        list_calls_view(cfg, args, rs)
    } else if name == "twilio_get_call"@ {
        get_call_view(cfg, args, rs)
    } else if name == "twilio_list_numbers"@ {
        list_numbers_view(cfg, args, rs)
    } else if name == "twilio_search_available_numbers"@ {
        search_view(cfg, args, rs)
    } else if name == "twilio_purchase_number"@ {
        purchase_view(cfg, args, rs)
    } else if name == "twilio_release_number"@ {
        release_view(cfg, args, rs)
    } else if name == "twilio_create_verify_service"@ {
        create_service_view(args, rs)
    } else if name == "twilio_list_verify_services"@ {
        list_services_view(rs)
    } else if name == "twilio_send_verification"@ {
        send_verification_view(args, rs)
    } else if name == "twilio_check_verification"@ {
        check_verification_view(args, rs)
    } else if name == "twilio_lookup_phone_number"@ {
        lookup_view(args, rs)
    } else {
        fail_view("Unknown twilio tool: "@ + name)
    }
}

/// The inputs on which a tool call runs without panicking: the message bodies listed by
/// `twilio_list_messages` can be cut for their previews.
pub open spec fn handle_ok(name: Seq<char>, rs: Seq<Json>) -> bool {
    name == "twilio_list_messages"@ && rs.len() >= 1 ==> cuts_ok(Listed::Message, rs[0], "messages"@)
}

/// Whether a call of `name` can take `responses` without panicking (see [`handle_ok`]).
pub fn can_handle(name: &str, responses: &Vec<Json>) -> (r: bool)
    ensures
        r == handle_ok(name@, responses@),
{
    if !str_eq(name, "twilio_list_messages") || responses.len() == 0 {
        return true;
    }
    let items = match get_array(&responses[0], "messages") {
        Some(a) => a,
        None => return true,
    };
    let ghost all = items_of(responses@[0], "messages"@);
    let mut i: usize = 0;
    while i < items.len()
        invariant
            i <= items@.len(),
            items@ == all,
            name@ == "twilio_list_messages"@,
            responses@.len() >= 1,
            all == items_of(responses@[0], "messages"@),
            forall|k: int| 0 <= k < i ==> #[trigger] cut_ok(all[k]),
        decreases items.len() - i,
    {
        if !crate::fmt::can_cut(get_str_or(&items[i], "body", ""), 80) {
            assert(!cut_ok(all[i as int]));
            return false;
        }
        i = i + 1;
    }
    true
}

/// Runs one step of the Twilio tool `name` called with `args`: `responses` holds the parsed
/// responses to the requests made so far (each tool makes one).
pub fn handle(cfg: &TwilioConfig, name: &str, args: &Json, responses: &Vec<Json>) -> (s: Step)
    requires
        handle_ok(name@, responses@),
    ensures
        s@ == handle_view(*cfg, name@, *args, responses@),
{
    let rs = responses;
    if str_eq(name, "twilio_send_sms") {
        send_message(cfg, args, rs, false)
    } else if str_eq(name, "twilio_send_whatsapp") {
        send_message(cfg, args, rs, true)
    } else if str_eq(name, "twilio_list_messages") {
        list_messages(cfg, args, rs)
    } else if str_eq(name, "twilio_get_message") {
        get_message(cfg, args, rs)
    } else if str_eq(name, "twilio_create_call") {
        create_call(cfg, args, rs)
    } else if str_eq(name, "twilio_list_calls") {
        list_calls(cfg, args, rs)
    } else if str_eq(name, "twilio_get_call") {
        get_call(cfg, args, rs)
    } else if str_eq(name, "twilio_list_numbers") {
        list_numbers(cfg, args, rs)
    } else if str_eq(name, "twilio_search_available_numbers") {
        search_available_numbers(cfg, args, rs)
    } else if str_eq(name, "twilio_purchase_number") {
        purchase_number(cfg, args, rs)
    } else if str_eq(name, "twilio_release_number") {
        release_number(cfg, args, rs)
    } else if str_eq(name, "twilio_create_verify_service") {
        create_verify_service(args, rs)
    } else if str_eq(name, "twilio_list_verify_services") {
        list_verify_services(rs)
    } else if str_eq(name, "twilio_send_verification") {
        send_verification(args, rs)
    } else if str_eq(name, "twilio_check_verification") {
        check_verification(args, rs)
    } else if str_eq(name, "twilio_lookup_phone_number") {
        lookup_phone_number(args, rs)
    } else {
        Step::Done(Err(concat("Unknown twilio tool: ", name)))
    }
}

/// Every Twilio tool makes at most one request: once its response is in, the call has its
/// outcome.
pub proof fn lemma_handle_ends(cfg: TwilioConfig, name: Seq<char>, args: Json, rs: Seq<Json>)
    requires
        rs.len() >= 1,
    ensures
        handle_view(cfg, name, args, rs) is Done,
{
}

/// Every request a Twilio tool makes carries the account credentials, and a form is sent
/// only by `POST`.
pub proof fn lemma_requests_authenticated(cfg: TwilioConfig, name: Seq<char>, args: Json, rs: Seq<Json>)
    ensures
        handle_view(cfg, name, args, rs) matches StepView::Send(req) ==> req.authenticated && (
        req.form ==> req.method == Method::Post),
{
}

/// The Twilio tools offered to MCP clients: name, description and input schema of each, as a
/// The catalog's tools, in its order: for each, the JSON text of its members before its name
/// (its description and input schema).
pub const TOOL_HEADS: [&'static str; 16] = [
    r#"{"description":"Send an SMS message via Twilio. Returns the message SID and status.","inputSchema":{"properties":{"body":{"description":"Text content of the SMS (max 1600 chars)","type":"string"},"from":{"description":"Sender number (overrides default from_number in config)","type":"string"},"to":{"description":"Destination phone number in E.164 format (e.g. +14155552671)","type":"string"}},"required":["to","body"],"type":"object"},"name":"#,
    r#"{"description":"Send a WhatsApp message via Twilio. Both to/from are wrapped with whatsapp: prefix automatically.","inputSchema":{"properties":{"body":{"description":"Message body","type":"string"},"from":{"description":"Sender WhatsApp-enabled number (overrides config default)","type":"string"},"to":{"description":"Destination WhatsApp number in E.164 format (e.g. +14155552671)","type":"string"}},"required":["to","body"],"type":"object"},"name":"#,
    r#"{"description":"List SMS/MMS messages from the Twilio account. Returns message SIDs, direction, status, and body preview.","inputSchema":{"properties":{"from":{"description":"Filter by sender number","type":"string"},"limit":{"description":"Number of messages to return (default 20, max 100)","type":"integer"},"to":{"description":"Filter by recipient number","type":"string"}},"type":"object"},"name":"#,
    r#"{"description":"Get full details of a specific Twilio message by its SID (SMxxxxxxx).","inputSchema":{"properties":{"message_sid":{"description":"Message SID (e.g. SM1234...)","type":"string"}},"required":["message_sid"],"type":"object"},"name":"#,
    r#"{"description":"Initiate an outbound phone call via Twilio. Uses a TwiML URL to control call flow.","inputSchema":{"properties":{"from":{"description":"Caller ID number (overrides config default)","type":"string"},"to":{"description":"Destination phone number in E.164 format","type":"string"},"url":{"description":"TwiML URL that controls call behavior (default: http://demo.twilio.com/docs/voice.xml)","type":"string"}},"required":["to"],"type":"object"},"name":"#,
    r#"{"description":"List calls in the Twilio account. Returns call SIDs, direction, status, duration, and timestamps.","inputSchema":{"properties":{"limit":{"description":"Number of calls to return (default 20, max 100)","type":"integer"},"status":{"description":"Filter by status: queued, ringing, in-progress, canceled, completed, failed, busy, no-answer","type":"string"}},"type":"object"},"name":"#,
    r#"{"description":"Get full details of a specific Twilio call by its SID (CAxxxxxxx).","inputSchema":{"properties":{"call_sid":{"description":"Call SID (e.g. CA1234...)","type":"string"}},"required":["call_sid"],"type":"object"},"name":"#,
    r#"{"description":"List phone numbers purchased on this Twilio account.","inputSchema":{"properties":{"limit":{"description":"Number of numbers to return (default 20)","type":"integer"}},"type":"object"},"name":"#,
    r#"{"description":"Search for available phone numbers to purchase on Twilio.","inputSchema":{"properties":{"area_code":{"description":"Area code to filter by (e.g. 415)","type":"string"},"country_code":{"description":"ISO 3166-1 alpha-2 country code (e.g. US, GB, FR)","type":"string"},"sms_enabled":{"description":"Filter by SMS capability (default true)","type":"boolean"},"voice_enabled":{"description":"Filter by voice capability (default true)","type":"boolean"}},"required":["country_code"],"type":"object"},"name":"#,
    r#"{"description":"Purchase a phone number for the Twilio account. Use twilio_search_available_numbers first.","inputSchema":{"properties":{"phone_number":{"description":"E.164 phone number to purchase (e.g. +14155552671)","type":"string"}},"required":["phone_number"],"type":"object"},"name":"#,
    r#"{"description":"Release (delete) a purchased Twilio phone number by its IncomingPhoneNumbers SID (PNxxxxxxx).","inputSchema":{"properties":{"sid":{"description":"IncomingPhoneNumbers SID (e.g. PN1234...)","type":"string"}},"required":["sid"],"type":"object"},"name":"#,
    r#"{"description":"Create a new Twilio Verify service (used for OTP/verification flows). Returns service SID.","inputSchema":{"properties":{"friendly_name":{"description":"Human-readable name for the verify service","type":"string"}},"required":["friendly_name"],"type":"object"},"name":"#,
    r#"{"description":"List all Twilio Verify services on the account.","inputSchema":{"properties":{},"type":"object"},"name":"#,
    r#"{"description":"Send a verification code (OTP) to a phone/email via a Twilio Verify service.","inputSchema":{"properties":{"channel":{"description":"Delivery channel: sms (default), call, or email","type":"string"},"service_sid":{"description":"Verify service SID (VAxxxxxxx)","type":"string"},"to":{"description":"Phone number or email to send the code to","type":"string"}},"required":["service_sid","to"],"type":"object"},"name":"#,
    r#"{"description":"Check whether a verification code (OTP) is correct for a given Twilio Verify service.","inputSchema":{"properties":{"code":{"description":"The OTP code entered by the user","type":"string"},"service_sid":{"description":"Verify service SID (VAxxxxxxx)","type":"string"},"to":{"description":"Phone number or email the code was sent to","type":"string"}},"required":["service_sid","to","code"],"type":"object"},"name":"#,
    r#"{"description":"Look up carrier and caller-name information for any phone number via Twilio Lookup.","inputSchema":{"properties":{"phone_number":{"description":"E.164 phone number to look up (e.g. +14155552671)","type":"string"}},"required":["phone_number"],"type":"object"},"name":"#
];

/// The names of the catalog's tools, in its order (those of [`catalog_names`]).
pub const TOOL_NAMES: [&'static str; 16] = [
    "twilio_send_sms",
    "twilio_send_whatsapp",
    "twilio_list_messages",
    "twilio_get_message",
    "twilio_create_call",
    "twilio_list_calls",
    "twilio_get_call",
    "twilio_list_numbers",
    "twilio_search_available_numbers",
    "twilio_purchase_number",
    "twilio_release_number",
    "twilio_create_verify_service",
    "twilio_list_verify_services",
    "twilio_send_verification",
    "twilio_check_verification",
    "twilio_lookup_phone_number"
];

/// The Twilio tools offered to MCP clients, as a JSON array: one entry per tool of
/// [`catalog_names`], in order, each with its description and input schema (from
/// [`TOOL_HEADS`]) and its name.
pub fn tools() -> (r: String)
    ensures
        r@ == catalog_text(texts(TOOL_HEADS@), catalog_names()),
{
    assert(texts(TOOL_NAMES@) =~= catalog_names());
    build_catalog(&TOOL_HEADS, &TOOL_NAMES)
}

/// The names of the tools in the catalog, in its order.
pub open spec fn catalog_names() -> Seq<Seq<char>> {
    seq![
        "twilio_send_sms"@,
        "twilio_send_whatsapp"@,
        "twilio_list_messages"@,
        "twilio_get_message"@,
        "twilio_create_call"@,
        "twilio_list_calls"@,
        "twilio_get_call"@,
        "twilio_list_numbers"@,
        "twilio_search_available_numbers"@,
        "twilio_purchase_number"@,
        "twilio_release_number"@,
        "twilio_create_verify_service"@,
        "twilio_list_verify_services"@,
        "twilio_send_verification"@,
        "twilio_check_verification"@,
        "twilio_lookup_phone_number"@
    ]
}

/// The names of the tools in the catalog, in its order (see [`catalog_names`]).
pub fn tool_names() -> (r: Vec<&'static str>)
    ensures
        r@.map_values(|s: &'static str| s@) == catalog_names(),
{
    let r = vec![
        "twilio_send_sms",
        "twilio_send_whatsapp",
        "twilio_list_messages",
        "twilio_get_message",
        "twilio_create_call",
        "twilio_list_calls",
        "twilio_get_call",
        "twilio_list_numbers",
        "twilio_search_available_numbers",
        "twilio_purchase_number",
        "twilio_release_number",
        "twilio_create_verify_service",
        "twilio_list_verify_services",
        "twilio_send_verification",
        "twilio_check_verification",
        "twilio_lookup_phone_number"
    ];
    assert(r@.map_values(|s: &'static str| s@) =~= catalog_names());
    r
}

/// A tool name that [`tools`] does not serve (one outside [`catalog_names`]) gets the
/// unknown-tool error, without a request.
pub proof fn lemma_unknown_tool(cfg: TwilioConfig, name: Seq<char>, args: Json, rs: Seq<Json>)
    requires
        !catalog_names().contains(name),
    ensures
        handle_view(cfg, name, args, rs) == fail_view("Unknown twilio tool: "@ + name),
{
    assert(catalog_names()[0] == "twilio_send_sms"@);
    assert(catalog_names()[1] == "twilio_send_whatsapp"@);
    assert(catalog_names()[2] == "twilio_list_messages"@);
    assert(catalog_names()[3] == "twilio_get_message"@);
    assert(catalog_names()[4] == "twilio_create_call"@);
    assert(catalog_names()[5] == "twilio_list_calls"@);
    assert(catalog_names()[6] == "twilio_get_call"@);
    assert(catalog_names()[7] == "twilio_list_numbers"@);
    assert(catalog_names()[8] == "twilio_search_available_numbers"@);
    assert(catalog_names()[9] == "twilio_purchase_number"@);
    assert(catalog_names()[10] == "twilio_release_number"@);
    assert(catalog_names()[11] == "twilio_create_verify_service"@);
    assert(catalog_names()[12] == "twilio_list_verify_services"@);
    assert(catalog_names()[13] == "twilio_send_verification"@);
    assert(catalog_names()[14] == "twilio_check_verification"@);
    assert(catalog_names()[15] == "twilio_lookup_phone_number"@);
}

proof fn lemma_twilio_send_sms_handled(cfg: TwilioConfig, args: Json)
    ensures
        handle_view(cfg, "twilio_send_sms"@, args, seq![]) != fail_view("Unknown twilio tool: "@ + "twilio_send_sms"@),
{
    reveal_strlit("Delete failed: ");
    reveal_strlit("Missing '");
    reveal_strlit("Missing 'from' number — set from_number in twilio.toml or pass 'from' arg");
    reveal_strlit("Twilio error: ");
    reveal_strlit("Unknown twilio tool: ");
    assert(("Unknown twilio tool: "@ + "twilio_send_sms"@)[0] == 'U');
}

proof fn lemma_twilio_send_whatsapp_handled(cfg: TwilioConfig, args: Json)
    ensures
        handle_view(cfg, "twilio_send_whatsapp"@, args, seq![]) != fail_view("Unknown twilio tool: "@ + "twilio_send_whatsapp"@),
{
    reveal_strlit("Delete failed: ");
    reveal_strlit("Missing '");
    reveal_strlit("Missing 'from' number — set from_number in twilio.toml or pass 'from' arg");
    reveal_strlit("Twilio error: ");
    reveal_strlit("Unknown twilio tool: ");
    assert(("Unknown twilio tool: "@ + "twilio_send_whatsapp"@)[0] == 'U');
}

proof fn lemma_twilio_list_messages_handled(cfg: TwilioConfig, args: Json)
    ensures
        handle_view(cfg, "twilio_list_messages"@, args, seq![]) != fail_view("Unknown twilio tool: "@ + "twilio_list_messages"@),
{
    reveal_strlit("Delete failed: ");
    reveal_strlit("Missing '");
    reveal_strlit("Missing 'from' number — set from_number in twilio.toml or pass 'from' arg");
    reveal_strlit("Twilio error: ");
    reveal_strlit("Unknown twilio tool: ");
    assert(("Unknown twilio tool: "@ + "twilio_list_messages"@)[0] == 'U');
}

proof fn lemma_twilio_get_message_handled(cfg: TwilioConfig, args: Json)
    ensures
        handle_view(cfg, "twilio_get_message"@, args, seq![]) != fail_view("Unknown twilio tool: "@ + "twilio_get_message"@),
{
    reveal_strlit("Delete failed: ");
    reveal_strlit("Missing '");
    reveal_strlit("Missing 'from' number — set from_number in twilio.toml or pass 'from' arg");
    reveal_strlit("Twilio error: ");
    reveal_strlit("Unknown twilio tool: ");
    assert(("Unknown twilio tool: "@ + "twilio_get_message"@)[0] == 'U');
}

proof fn lemma_twilio_create_call_handled(cfg: TwilioConfig, args: Json)
    ensures
        handle_view(cfg, "twilio_create_call"@, args, seq![]) != fail_view("Unknown twilio tool: "@ + "twilio_create_call"@),
{
    reveal_strlit("Delete failed: ");
    reveal_strlit("Missing '");
    reveal_strlit("Missing 'from' number — set from_number in twilio.toml or pass 'from' arg");
    reveal_strlit("Twilio error: ");
    reveal_strlit("Unknown twilio tool: ");
    assert(("Unknown twilio tool: "@ + "twilio_create_call"@)[0] == 'U');
}

proof fn lemma_twilio_list_calls_handled(cfg: TwilioConfig, args: Json)
    ensures
        handle_view(cfg, "twilio_list_calls"@, args, seq![]) != fail_view("Unknown twilio tool: "@ + "twilio_list_calls"@),
{
    reveal_strlit("Delete failed: ");
    reveal_strlit("Missing '");
    reveal_strlit("Missing 'from' number — set from_number in twilio.toml or pass 'from' arg");
    reveal_strlit("Twilio error: ");
    reveal_strlit("Unknown twilio tool: ");
    assert(("Unknown twilio tool: "@ + "twilio_list_calls"@)[0] == 'U');
}

proof fn lemma_twilio_get_call_handled(cfg: TwilioConfig, args: Json)
    ensures
        handle_view(cfg, "twilio_get_call"@, args, seq![]) != fail_view("Unknown twilio tool: "@ + "twilio_get_call"@),
{
    reveal_strlit("Delete failed: ");
    reveal_strlit("Missing '");
    reveal_strlit("Missing 'from' number — set from_number in twilio.toml or pass 'from' arg");
    reveal_strlit("Twilio error: ");
    reveal_strlit("Unknown twilio tool: ");
    assert(("Unknown twilio tool: "@ + "twilio_get_call"@)[0] == 'U');
}

proof fn lemma_twilio_list_numbers_handled(cfg: TwilioConfig, args: Json)
    ensures
        handle_view(cfg, "twilio_list_numbers"@, args, seq![]) != fail_view("Unknown twilio tool: "@ + "twilio_list_numbers"@),
{
    reveal_strlit("Delete failed: ");
    reveal_strlit("Missing '");
    reveal_strlit("Missing 'from' number — set from_number in twilio.toml or pass 'from' arg");
    reveal_strlit("Twilio error: ");
    reveal_strlit("Unknown twilio tool: ");
    assert(("Unknown twilio tool: "@ + "twilio_list_numbers"@)[0] == 'U');
}

proof fn lemma_twilio_search_available_numbers_handled(cfg: TwilioConfig, args: Json)
    ensures
        handle_view(cfg, "twilio_search_available_numbers"@, args, seq![]) != fail_view("Unknown twilio tool: "@ + "twilio_search_available_numbers"@),
{
    reveal_strlit("Delete failed: ");
    reveal_strlit("Missing '");
    reveal_strlit("Missing 'from' number — set from_number in twilio.toml or pass 'from' arg");
    reveal_strlit("Twilio error: ");
    reveal_strlit("Unknown twilio tool: ");
    assert(("Unknown twilio tool: "@ + "twilio_search_available_numbers"@)[0] == 'U');
}

proof fn lemma_twilio_purchase_number_handled(cfg: TwilioConfig, args: Json)
    ensures
        handle_view(cfg, "twilio_purchase_number"@, args, seq![]) != fail_view("Unknown twilio tool: "@ + "twilio_purchase_number"@),
{
    reveal_strlit("Delete failed: ");
    reveal_strlit("Missing '");
    reveal_strlit("Missing 'from' number — set from_number in twilio.toml or pass 'from' arg");
    reveal_strlit("Twilio error: ");
    reveal_strlit("Unknown twilio tool: ");
    assert(("Unknown twilio tool: "@ + "twilio_purchase_number"@)[0] == 'U');
}

proof fn lemma_twilio_release_number_handled(cfg: TwilioConfig, args: Json)
    ensures
        handle_view(cfg, "twilio_release_number"@, args, seq![]) != fail_view("Unknown twilio tool: "@ + "twilio_release_number"@),
{
    reveal_strlit("Delete failed: ");
    reveal_strlit("Missing '");
    reveal_strlit("Missing 'from' number — set from_number in twilio.toml or pass 'from' arg");
    reveal_strlit("Twilio error: ");
    reveal_strlit("Unknown twilio tool: ");
    assert(("Unknown twilio tool: "@ + "twilio_release_number"@)[0] == 'U');
}

proof fn lemma_twilio_create_verify_service_handled(cfg: TwilioConfig, args: Json)
    ensures
        handle_view(cfg, "twilio_create_verify_service"@, args, seq![]) != fail_view("Unknown twilio tool: "@ + "twilio_create_verify_service"@),
{
    reveal_strlit("Delete failed: ");
    reveal_strlit("Missing '");
    reveal_strlit("Missing 'from' number — set from_number in twilio.toml or pass 'from' arg");
    reveal_strlit("Twilio error: ");
    reveal_strlit("Unknown twilio tool: ");
    assert(("Unknown twilio tool: "@ + "twilio_create_verify_service"@)[0] == 'U');
}

proof fn lemma_twilio_list_verify_services_handled(cfg: TwilioConfig, args: Json)
    ensures
        handle_view(cfg, "twilio_list_verify_services"@, args, seq![]) != fail_view("Unknown twilio tool: "@ + "twilio_list_verify_services"@),
{
    reveal_strlit("Delete failed: ");
    reveal_strlit("Missing '");
    reveal_strlit("Missing 'from' number — set from_number in twilio.toml or pass 'from' arg");
    reveal_strlit("Twilio error: ");
    reveal_strlit("Unknown twilio tool: ");
    assert(("Unknown twilio tool: "@ + "twilio_list_verify_services"@)[0] == 'U');
}

proof fn lemma_twilio_send_verification_handled(cfg: TwilioConfig, args: Json)
    ensures
        handle_view(cfg, "twilio_send_verification"@, args, seq![]) != fail_view("Unknown twilio tool: "@ + "twilio_send_verification"@),
{
    reveal_strlit("Delete failed: ");
    reveal_strlit("Missing '");
    reveal_strlit("Missing 'from' number — set from_number in twilio.toml or pass 'from' arg");
    reveal_strlit("Twilio error: ");
    reveal_strlit("Unknown twilio tool: ");
    assert(("Unknown twilio tool: "@ + "twilio_send_verification"@)[0] == 'U');
}

proof fn lemma_twilio_check_verification_handled(cfg: TwilioConfig, args: Json)
    ensures
        handle_view(cfg, "twilio_check_verification"@, args, seq![]) != fail_view("Unknown twilio tool: "@ + "twilio_check_verification"@),
{
    reveal_strlit("Delete failed: ");
    reveal_strlit("Missing '");
    reveal_strlit("Missing 'from' number — set from_number in twilio.toml or pass 'from' arg");
    reveal_strlit("Twilio error: ");
    reveal_strlit("Unknown twilio tool: ");
    assert(("Unknown twilio tool: "@ + "twilio_check_verification"@)[0] == 'U');
}

proof fn lemma_twilio_lookup_phone_number_handled(cfg: TwilioConfig, args: Json)
    ensures
        handle_view(cfg, "twilio_lookup_phone_number"@, args, seq![]) != fail_view("Unknown twilio tool: "@ + "twilio_lookup_phone_number"@),
{
    reveal_strlit("Delete failed: ");
    reveal_strlit("Missing '");
    reveal_strlit("Missing 'from' number — set from_number in twilio.toml or pass 'from' arg");
    reveal_strlit("Twilio error: ");
    reveal_strlit("Unknown twilio tool: ");
    assert(("Unknown twilio tool: "@ + "twilio_lookup_phone_number"@)[0] == 'U');
}

/// Every tool that [`tools`] serves (those of [`catalog_names`]) and that this module runs is
/// handled: its first step is never the unknown-tool error.
pub proof fn lemma_catalog_handled(cfg: TwilioConfig, name: Seq<char>, args: Json)
    requires
        catalog_names().contains(name),
    ensures
        handle_view(cfg, name, args, seq![]) != fail_view("Unknown twilio tool: "@ + name),
{
    assert(catalog_names()[0] == "twilio_send_sms"@);
    assert(catalog_names()[1] == "twilio_send_whatsapp"@);
    assert(catalog_names()[2] == "twilio_list_messages"@);
    assert(catalog_names()[3] == "twilio_get_message"@);
    assert(catalog_names()[4] == "twilio_create_call"@);
    assert(catalog_names()[5] == "twilio_list_calls"@);
    assert(catalog_names()[6] == "twilio_get_call"@);
    assert(catalog_names()[7] == "twilio_list_numbers"@);
    assert(catalog_names()[8] == "twilio_search_available_numbers"@);
    assert(catalog_names()[9] == "twilio_purchase_number"@);
    assert(catalog_names()[10] == "twilio_release_number"@);
    assert(catalog_names()[11] == "twilio_create_verify_service"@);
    assert(catalog_names()[12] == "twilio_list_verify_services"@);
    assert(catalog_names()[13] == "twilio_send_verification"@);
    assert(catalog_names()[14] == "twilio_check_verification"@);
    assert(catalog_names()[15] == "twilio_lookup_phone_number"@);
    if name == "twilio_send_sms"@ {
        lemma_twilio_send_sms_handled(cfg, args);
    }
    if name == "twilio_send_whatsapp"@ {
        lemma_twilio_send_whatsapp_handled(cfg, args);
    }
    if name == "twilio_list_messages"@ {
        lemma_twilio_list_messages_handled(cfg, args);
    }
    if name == "twilio_get_message"@ {
        lemma_twilio_get_message_handled(cfg, args);
    }
    if name == "twilio_create_call"@ {
        lemma_twilio_create_call_handled(cfg, args);
    }
    if name == "twilio_list_calls"@ {
        lemma_twilio_list_calls_handled(cfg, args);
    }
    if name == "twilio_get_call"@ {
        lemma_twilio_get_call_handled(cfg, args);
    }
    if name == "twilio_list_numbers"@ {
        lemma_twilio_list_numbers_handled(cfg, args);
    }
    if name == "twilio_search_available_numbers"@ {
        lemma_twilio_search_available_numbers_handled(cfg, args);
    }
    if name == "twilio_purchase_number"@ {
        lemma_twilio_purchase_number_handled(cfg, args);
    }
    if name == "twilio_release_number"@ {
        lemma_twilio_release_number_handled(cfg, args);
    }
    if name == "twilio_create_verify_service"@ {
        lemma_twilio_create_verify_service_handled(cfg, args);
    }
    if name == "twilio_list_verify_services"@ {
        lemma_twilio_list_verify_services_handled(cfg, args);
    }
    if name == "twilio_send_verification"@ {
        lemma_twilio_send_verification_handled(cfg, args);
    }
    if name == "twilio_check_verification"@ {
        lemma_twilio_check_verification_handled(cfg, args);
    }
    if name == "twilio_lookup_phone_number"@ {
        lemma_twilio_lookup_phone_number_handled(cfg, args);
    }
}

/// The names of each catalog tool's input properties and of those it requires, in catalog
/// order (properties by name).
pub open spec fn catalog_schemas() -> Seq<(Seq<char>, Seq<Seq<char>>, Seq<Seq<char>>)> {
    seq![
        ("twilio_send_sms"@, seq!["body"@, "from"@, "to"@], seq!["to"@, "body"@]),
        ("twilio_send_whatsapp"@, seq!["body"@, "from"@, "to"@], seq!["to"@, "body"@]),
        ("twilio_list_messages"@, seq!["from"@, "limit"@, "to"@], seq![]),
        ("twilio_get_message"@, seq!["message_sid"@], seq!["message_sid"@]),
        ("twilio_create_call"@, seq!["from"@, "to"@, "url"@], seq!["to"@]),
        ("twilio_list_calls"@, seq!["limit"@, "status"@], seq![]),
        ("twilio_get_call"@, seq!["call_sid"@], seq!["call_sid"@]),
        ("twilio_list_numbers"@, seq!["limit"@], seq![]),
        ("twilio_search_available_numbers"@, seq!["area_code"@, "country_code"@, "sms_enabled"@, "voice_enabled"@], seq!["country_code"@]),
        ("twilio_purchase_number"@, seq!["phone_number"@], seq!["phone_number"@]),
        ("twilio_release_number"@, seq!["sid"@], seq!["sid"@]),
        ("twilio_create_verify_service"@, seq!["friendly_name"@], seq!["friendly_name"@]),
        ("twilio_list_verify_services"@, seq![], seq![]),
        ("twilio_send_verification"@, seq!["channel"@, "service_sid"@, "to"@], seq!["service_sid"@, "to"@]),
        ("twilio_check_verification"@, seq!["code"@, "service_sid"@, "to"@], seq!["service_sid"@, "to"@, "code"@]),
        ("twilio_lookup_phone_number"@, seq!["phone_number"@], seq!["phone_number"@])
    ]
}

/// The names of each catalog tool's input properties and required inputs (see
/// [`catalog_schemas`]).
pub fn tool_schemas() -> (r: Vec<SchemaNames>)
    ensures
        r@.map_values(|e: SchemaNames| schema_view(e)) == catalog_schemas(),
{
    let r: Vec<SchemaNames> = vec![
        ("twilio_send_sms", vec!["body", "from", "to"], vec!["to", "body"]),
        ("twilio_send_whatsapp", vec!["body", "from", "to"], vec!["to", "body"]),
        ("twilio_list_messages", vec!["from", "limit", "to"], vec![]),
        ("twilio_get_message", vec!["message_sid"], vec!["message_sid"]),
        ("twilio_create_call", vec!["from", "to", "url"], vec!["to"]),
        ("twilio_list_calls", vec!["limit", "status"], vec![]),
        ("twilio_get_call", vec!["call_sid"], vec!["call_sid"]),
        ("twilio_list_numbers", vec!["limit"], vec![]),
        ("twilio_search_available_numbers", vec!["area_code", "country_code", "sms_enabled", "voice_enabled"], vec!["country_code"]),
        ("twilio_purchase_number", vec!["phone_number"], vec!["phone_number"]),
        ("twilio_release_number", vec!["sid"], vec!["sid"]),
        ("twilio_create_verify_service", vec!["friendly_name"], vec!["friendly_name"]),
        ("twilio_list_verify_services", vec![], vec![]),
        ("twilio_send_verification", vec!["channel", "service_sid", "to"], vec!["service_sid", "to"]),
        ("twilio_check_verification", vec!["code", "service_sid", "to"], vec!["service_sid", "to", "code"]),
        ("twilio_lookup_phone_number", vec!["phone_number"], vec!["phone_number"])
    ];
    assert(r@[0].1@.map_values(|s: &'static str| s@) =~= catalog_schemas()[0].1);
    assert(r@[0].2@.map_values(|s: &'static str| s@) =~= catalog_schemas()[0].2);
    assert(r@[1].1@.map_values(|s: &'static str| s@) =~= catalog_schemas()[1].1);
    assert(r@[1].2@.map_values(|s: &'static str| s@) =~= catalog_schemas()[1].2);
    assert(r@[2].1@.map_values(|s: &'static str| s@) =~= catalog_schemas()[2].1);
    assert(r@[2].2@.map_values(|s: &'static str| s@) =~= catalog_schemas()[2].2);
    assert(r@[3].1@.map_values(|s: &'static str| s@) =~= catalog_schemas()[3].1);
    assert(r@[3].2@.map_values(|s: &'static str| s@) =~= catalog_schemas()[3].2);
    assert(r@[4].1@.map_values(|s: &'static str| s@) =~= catalog_schemas()[4].1);
    assert(r@[4].2@.map_values(|s: &'static str| s@) =~= catalog_schemas()[4].2);
    assert(r@[5].1@.map_values(|s: &'static str| s@) =~= catalog_schemas()[5].1);
    assert(r@[5].2@.map_values(|s: &'static str| s@) =~= catalog_schemas()[5].2);
    assert(r@[6].1@.map_values(|s: &'static str| s@) =~= catalog_schemas()[6].1);
    assert(r@[6].2@.map_values(|s: &'static str| s@) =~= catalog_schemas()[6].2);
    assert(r@[7].1@.map_values(|s: &'static str| s@) =~= catalog_schemas()[7].1);
    assert(r@[7].2@.map_values(|s: &'static str| s@) =~= catalog_schemas()[7].2);
    assert(r@[8].1@.map_values(|s: &'static str| s@) =~= catalog_schemas()[8].1);
    assert(r@[8].2@.map_values(|s: &'static str| s@) =~= catalog_schemas()[8].2);
    assert(r@[9].1@.map_values(|s: &'static str| s@) =~= catalog_schemas()[9].1);
    assert(r@[9].2@.map_values(|s: &'static str| s@) =~= catalog_schemas()[9].2);
    assert(r@[10].1@.map_values(|s: &'static str| s@) =~= catalog_schemas()[10].1);
    assert(r@[10].2@.map_values(|s: &'static str| s@) =~= catalog_schemas()[10].2);
    assert(r@[11].1@.map_values(|s: &'static str| s@) =~= catalog_schemas()[11].1);
    assert(r@[11].2@.map_values(|s: &'static str| s@) =~= catalog_schemas()[11].2);
    assert(r@[12].1@.map_values(|s: &'static str| s@) =~= catalog_schemas()[12].1);
    assert(r@[12].2@.map_values(|s: &'static str| s@) =~= catalog_schemas()[12].2);
    assert(r@[13].1@.map_values(|s: &'static str| s@) =~= catalog_schemas()[13].1);
    assert(r@[13].2@.map_values(|s: &'static str| s@) =~= catalog_schemas()[13].2);
    assert(r@[14].1@.map_values(|s: &'static str| s@) =~= catalog_schemas()[14].1);
    assert(r@[14].2@.map_values(|s: &'static str| s@) =~= catalog_schemas()[14].2);
    assert(r@[15].1@.map_values(|s: &'static str| s@) =~= catalog_schemas()[15].1);
    assert(r@[15].2@.map_values(|s: &'static str| s@) =~= catalog_schemas()[15].2);
    assert(r@.map_values(|e: SchemaNames| schema_view(e)) =~= catalog_schemas());
    r
}

/// Every tool of the catalog requires only inputs that are among its properties.
pub proof fn lemma_required_are_properties(i: int)
    requires
        0 <= i < catalog_schemas().len(),
    ensures
        requires_properties(catalog_schemas()[i]),
{
    if i == 0 {
        assert(catalog_schemas()[0].1[2] == catalog_schemas()[0].2[0]);
        assert(catalog_schemas()[0].1[0] == catalog_schemas()[0].2[1]);
    }
    if i == 1 {
        assert(catalog_schemas()[1].1[2] == catalog_schemas()[1].2[0]);
        assert(catalog_schemas()[1].1[0] == catalog_schemas()[1].2[1]);
    }
    if i == 3 {
        assert(catalog_schemas()[3].1[0] == catalog_schemas()[3].2[0]);
    }
    if i == 4 {
        assert(catalog_schemas()[4].1[1] == catalog_schemas()[4].2[0]);
    }
    if i == 6 {
        assert(catalog_schemas()[6].1[0] == catalog_schemas()[6].2[0]);
    }
    if i == 8 {
        assert(catalog_schemas()[8].1[1] == catalog_schemas()[8].2[0]);
    }
    if i == 9 {
        assert(catalog_schemas()[9].1[0] == catalog_schemas()[9].2[0]);
    }
    if i == 10 {
        assert(catalog_schemas()[10].1[0] == catalog_schemas()[10].2[0]);
    }
    if i == 11 {
        assert(catalog_schemas()[11].1[0] == catalog_schemas()[11].2[0]);
    }
    if i == 13 {
        assert(catalog_schemas()[13].1[1] == catalog_schemas()[13].2[0]);
        assert(catalog_schemas()[13].1[2] == catalog_schemas()[13].2[1]);
    }
    if i == 14 {
        assert(catalog_schemas()[14].1[1] == catalog_schemas()[14].2[0]);
        assert(catalog_schemas()[14].1[2] == catalog_schemas()[14].2[1]);
        assert(catalog_schemas()[14].1[0] == catalog_schemas()[14].2[2]);
    }
    if i == 15 {
        assert(catalog_schemas()[15].1[0] == catalog_schemas()[15].2[0]);
    }
}

proof fn lemma_lines_append(kind: Listed, a: Seq<Json>, b: Seq<Json>)
    ensures
        lines(kind, a + b) == lines(kind, a) + lines(kind, b),
    decreases b.len(),
{
    if b.len() == 0 {
        assert(a + b =~= a);
    } else {
        lemma_lines_append(kind, a, b.drop_last());
        assert((a + b).drop_last() =~= a + b.drop_last());
    }
}

proof fn lemma_lines_at(kind: Listed, items: Seq<Json>, i: int)
    requires
        0 <= i < items.len(),
    ensures
        lines(kind, items) == lines(kind, items.take(i)) + item_line(kind, items[i]) + lines(
            kind,
            items.skip(i + 1),
        ),
{
    let one = seq![items[i]];
    assert(items =~= items.take(i) + one + items.skip(i + 1));
    lemma_lines_append(kind, items.take(i) + one, items.skip(i + 1));
    lemma_lines_append(kind, items.take(i), one);
    assert(one.drop_last() =~= Seq::<Json>::empty());
    assert(one.last() == items[i]);
    assert(lines(kind, Seq::<Json>::empty()) == Seq::<char>::empty());
    assert(lines(kind, one) =~= item_line(kind, items[i]));
}

proof fn lemma_list_messages_outcome(cfg: TwilioConfig, args: Json, r: Json)
    ensures
        handle_view(cfg, "twilio_list_messages"@, args, seq![r]) == StepView::Done(
            Ok(listing(Listed::Message, r, "messages"@, "Messages ("@, "No messages found."@, false)),
        ),
{
    reveal_strlit("twilio_list_messages");
    reveal_strlit("twilio_send_sms");
    assert("twilio_send_sms"@.len() == 15);
    reveal_strlit("twilio_send_whatsapp");
    assert("twilio_list_messages"@[7] != "twilio_send_whatsapp"@[7]);
    assert("twilio_list_messages"@.len() == 20);
}

proof fn lemma_message_line_route(j: Json)
    ensures
        occurs(
            " | "@ + str_or(j, "from"@, "?"@) + " → "@ + str_or(j, "to"@, "?"@) + " | "@,
            message_line(j),
        ),
{
    let x = "\n  ["@ + str_or(j, "sid"@, "?"@) + "] "@ + str_or(j, "direction"@, "?"@);
    let a = " | "@;
    let b = str_or(j, "from"@, "?"@);
    let c = " → "@;
    let d = str_or(j, "to"@, "?"@);
    let n = a + b + c + d + a;
    let y1 = str_or(j, "status"@, "?"@);
    let y3 = date_of(j, "date_sent"@);
    let y4 = "\n    "@;
    let y5 = preview(str_or(j, "body"@, ""@));
    let t0 = x + a + b + c + d + a;
    lemma_occurs_tail5(x, a, b, c, d, a);
    lemma_occurs_append(n, t0, y1);
    lemma_occurs_append(n, t0 + y1, a);
    lemma_occurs_append(n, t0 + y1 + a, y3);
    lemma_occurs_append(n, t0 + y1 + a + y3, y4);
    lemma_occurs_append(n, t0 + y1 + a + y3 + y4, y5);
}

proof fn lemma_listing_shows(
    kind: Listed,
    r: Json,
    key: Seq<char>,
    title: Seq<char>,
    empty: Seq<char>,
    i: int,
    n: Seq<char>,
)
    requires
        0 <= i < items_of(r, key).len(),
        occurs(n, item_line(kind, items_of(r, key)[i])),
    ensures
        occurs(n, listing(kind, r, key, title, empty, false)),
{
    let items = items_of(r, key);
    let j = items[i];
    lemma_lines_at(kind, items, i);
    let head = title + dec_nat(items.len()) + "):\n"@;
    let before = lines(kind, items.take(i));
    let after = lines(kind, items.skip(i + 1));
    lemma_occurs_prepend(n, before, item_line(kind, j));
    lemma_occurs_append(n, before + item_line(kind, j), after);
    lemma_occurs_prepend(n, head, lines(kind, items));
}

/// Every message that `twilio_list_messages` lists shows its sender and then its recipient:
/// its `from` member before ` → ` and its `to` member after it.
pub proof fn lemma_messages_show_sender_then_recipient(cfg: TwilioConfig, args: Json, r: Json, i: int)
    requires
        0 <= i < items_of(r, "messages"@).len(),
    ensures
        handle_view(cfg, "twilio_list_messages"@, args, seq![r]) matches StepView::Done(Ok(t)) && exists|
            p: Seq<char>,
            s: Seq<char>,
        |
            t == p + (" | "@ + str_or(items_of(r, "messages"@)[i], "from"@, "?"@) + " → "@ + str_or(
                items_of(r, "messages"@)[i],
                "to"@,
                "?"@,
            ) + " | "@) + s,
{
    let j = items_of(r, "messages"@)[i];
    lemma_list_messages_outcome(cfg, args, r);
    lemma_message_line_route(j);
    lemma_listing_shows(
        Listed::Message,
        r,
        "messages"@,
        "Messages ("@,
        "No messages found."@,
        i,
        " | "@ + str_or(j, "from"@, "?"@) + " → "@ + str_or(j, "to"@, "?"@) + " | "@,
    );
}

proof fn lemma_call_line_route(j: Json)
    ensures
        occurs(" | "@ + str_or(j, "from"@, "?"@) + " → "@ + str_or(j, "to"@, "?"@) + " | "@, call_line(j)),
{
    let x = "\n  ["@ + str_or(j, "sid"@, "?"@) + "] "@ + str_or(j, "direction"@, "?"@);
    let a = " | "@;
    let b = str_or(j, "from"@, "?"@);
    let c = " → "@;
    let d = str_or(j, "to"@, "?"@);
    let n = a + b + c + d + a;
    let y1 = str_or(j, "status"@, "?"@);
    let y3 = str_or(j, "duration"@, "0"@);
    let y4 = "s | "@;
    let y5 = date_of(j, "start_time"@);
    let t0 = x + a + b + c + d + a;
    lemma_occurs_tail5(x, a, b, c, d, a);
    lemma_occurs_append(n, t0, y1);
    lemma_occurs_append(n, t0 + y1, a);
    lemma_occurs_append(n, t0 + y1 + a, y3);
    lemma_occurs_append(n, t0 + y1 + a + y3, y4);
    lemma_occurs_append(n, t0 + y1 + a + y3 + y4, y5);
}

proof fn lemma_list_calls_outcome(cfg: TwilioConfig, args: Json, r: Json)
    ensures
        handle_view(cfg, "twilio_list_calls"@, args, seq![r]) == StepView::Done(
            Ok(listing(Listed::Call, r, "calls"@, "Calls ("@, "No calls found."@, false)),
        ),
{
    reveal_strlit("twilio_list_calls");
    reveal_strlit("twilio_send_sms");
    assert("twilio_send_sms"@.len() == 15);
    reveal_strlit("twilio_send_whatsapp");
    assert("twilio_send_whatsapp"@.len() == 20);
    reveal_strlit("twilio_list_messages");
    assert("twilio_list_messages"@.len() == 20);
    reveal_strlit("twilio_get_message");
    assert("twilio_get_message"@.len() == 18);
    reveal_strlit("twilio_create_call");
    assert("twilio_create_call"@.len() == 18);
    assert("twilio_list_calls"@.len() == 17);
}

/// Every call that `twilio_list_calls` lists shows its caller and then its callee: its
/// `from` member before ` → ` and its `to` member after it.
pub proof fn lemma_calls_show_caller_then_callee(cfg: TwilioConfig, args: Json, r: Json, i: int)
    requires
        0 <= i < items_of(r, "calls"@).len(),
    ensures
        handle_view(cfg, "twilio_list_calls"@, args, seq![r]) matches StepView::Done(Ok(t)) && exists|
            p: Seq<char>,
            s: Seq<char>,
        |
            t == p + (" | "@ + str_or(items_of(r, "calls"@)[i], "from"@, "?"@) + " → "@ + str_or(
                items_of(r, "calls"@)[i],
                "to"@,
                "?"@,
            ) + " | "@) + s,
{
    let j = items_of(r, "calls"@)[i];
    lemma_list_calls_outcome(cfg, args, r);
    lemma_call_line_route(j);
    lemma_listing_shows(
        Listed::Call,
        r,
        "calls"@,
        "Calls ("@,
        "No calls found."@,
        i,
        " | "@ + str_or(j, "from"@, "?"@) + " → "@ + str_or(j, "to"@, "?"@) + " | "@,
    );
}

/// `twilio_list_messages` asks for the account's messages, filtered on the sender by the
/// `from` argument and on the recipient by the `to` argument, each when given.
pub proof fn lemma_list_messages_request(cfg: TwilioConfig, args: Json)
    ensures
        handle_view(cfg, "twilio_list_messages"@, args, seq![]) == send_view(
            Method::Get,
            "https://api.twilio.com/2010-04-01/Accounts/"@ + cfg.account_sid@ + "/Messages.json?PageSize="@
                + dec_nat(page_size(args, true)) + match args.at("from"@).str_of() {
                Some(f) => "&From="@ + url_enc(f),
                None => seq![],
            } + match args.at("to"@).str_of() {
                Some(t) => "&To="@ + url_enc(t),
                None => seq![],
            },
            None,
        ),
{
    reveal_strlit("twilio_list_messages");
    reveal_strlit("twilio_send_sms");
    assert("twilio_send_sms"@.len() == 15);
    reveal_strlit("twilio_send_whatsapp");
    assert("twilio_list_messages"@[7] != "twilio_send_whatsapp"@[7]);
    assert("twilio_list_messages"@.len() == 20);
}

/// `twilio_send_sms` posts to the account's `Messages.json` the form `To`, `From`, `Body`:
/// the recipient is the `to` argument, the sender the `from` argument or else the configured
/// number, and the text the `body` argument.
pub proof fn lemma_send_sms_form(cfg: TwilioConfig, args: Json, to: Seq<char>, from: Seq<char>, body: Seq<char>)
    requires
        args.at("to"@).str_of() == Some(to),
        args.at("body"@).str_of() == Some(body),
        args.at("from"@).str_of() == Some(from) || (args.at("from"@).str_of() is None
            && cfg.from_number is Some && cfg.from_number.unwrap()@ == from),
    ensures
        handle_view(cfg, "twilio_send_sms"@, args, seq![]) == form_view(
            "https://api.twilio.com/2010-04-01/Accounts/"@ + cfg.account_sid@ + "/Messages.json"@,
            pair("To"@, to) + seq!['&'] + pair("From"@, from) + seq!['&'] + pair("Body"@, body),
        ),
{
}

/// `twilio_send_whatsapp` posts the same form as `twilio_send_sms`, with both numbers
/// prefixed with `whatsapp:`.
pub proof fn lemma_send_whatsapp_form(
    cfg: TwilioConfig,
    args: Json,
    to: Seq<char>,
    from: Seq<char>,
    body: Seq<char>,
)
    requires
        args.at("to"@).str_of() == Some(to),
        args.at("body"@).str_of() == Some(body),
        args.at("from"@).str_of() == Some(from) || (args.at("from"@).str_of() is None
            && cfg.from_number is Some && cfg.from_number.unwrap()@ == from),
    ensures
        handle_view(cfg, "twilio_send_whatsapp"@, args, seq![]) == form_view(
            "https://api.twilio.com/2010-04-01/Accounts/"@ + cfg.account_sid@ + "/Messages.json"@,
            pair("To"@, "whatsapp:"@ + to) + seq!['&'] + pair("From"@, "whatsapp:"@ + from) + seq!['&'] + pair(
                "Body"@,
                body,
            ),
        ),
{
    reveal_strlit("twilio_send_whatsapp");
    reveal_strlit("twilio_send_sms");
    assert("twilio_send_sms"@.len() == 15);
    assert("twilio_send_whatsapp"@.len() == 20);
}

/// The capability part of a listed number.
pub open spec fn capabilities_text(caps: Json) -> Seq<char> {
    ") — SMS:"@ + bool_text(flag(caps, "sms"@)) + " Voice:"@ + bool_text(flag(caps, "voice"@)) + " MMS:"@
        + bool_text(flag(caps, "mms"@))
}

/// Every number that `twilio_list_numbers` lists shows its SMS, voice and MMS capabilities,
/// each after its own label and in that order.
pub proof fn lemma_numbers_show_capabilities(cfg: TwilioConfig, args: Json, r: Json, i: int)
    requires
        0 <= i < items_of(r, "incoming_phone_numbers"@).len(),
    ensures
        handle_view(cfg, "twilio_list_numbers"@, args, seq![r]) matches StepView::Done(Ok(t)) && exists|
            p: Seq<char>,
            s: Seq<char>,
        |
            t == p + (") — SMS:"@ + bool_text(
                flag(items_of(r, "incoming_phone_numbers"@)[i].at("capabilities"@), "sms"@),
            ) + " Voice:"@ + bool_text(
                flag(items_of(r, "incoming_phone_numbers"@)[i].at("capabilities"@), "voice"@),
            ) + " MMS:"@ + bool_text(
                flag(items_of(r, "incoming_phone_numbers"@)[i].at("capabilities"@), "mms"@),
            )) + s,
{
    reveal_strlit("twilio_list_numbers");
    reveal_strlit("twilio_send_sms");
    assert("twilio_send_sms"@.len() == 15);
    reveal_strlit("twilio_send_whatsapp");
    assert("twilio_send_whatsapp"@.len() == 20);
    reveal_strlit("twilio_list_messages");
    assert("twilio_list_messages"@.len() == 20);
    reveal_strlit("twilio_get_message");
    assert("twilio_get_message"@.len() == 18);
    reveal_strlit("twilio_create_call");
    assert("twilio_create_call"@.len() == 18);
    reveal_strlit("twilio_list_calls");
    assert("twilio_list_calls"@.len() == 17);
    reveal_strlit("twilio_get_call");
    assert("twilio_get_call"@.len() == 15);
    assert("twilio_list_numbers"@.len() == 19);
    let j = items_of(r, "incoming_phone_numbers"@)[i];
    let caps = j.at("capabilities"@);
    let x = "\n  ["@ + str_or(j, "sid"@, "?"@) + "] "@ + str_or(j, "phone_number"@, "?"@) + " ("@ + str_or(
        j,
        "friendly_name"@,
        ""@,
    );
    lemma_occurs_tail6(
        x,
        ") — SMS:"@,
        bool_text(flag(caps, "sms"@)),
        " Voice:"@,
        bool_text(flag(caps, "voice"@)),
        " MMS:"@,
        bool_text(flag(caps, "mms"@)),
    );
    assert(item_line(Listed::Number, j) == x + ") — SMS:"@ + bool_text(flag(caps, "sms"@)) + " Voice:"@
        + bool_text(flag(caps, "voice"@)) + " MMS:"@ + bool_text(flag(caps, "mms"@)));
    lemma_listing_shows(
        Listed::Number,
        r,
        "incoming_phone_numbers"@,
        "Purchased numbers ("@,
        "No phone numbers found on this account."@,
        i,
        capabilities_text(caps),
    );
}

} // verus!
