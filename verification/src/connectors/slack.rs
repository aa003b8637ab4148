//! Slack connector (Slack Web API).
use vstd::prelude::*;
use crate::connectors::catalog::{build_catalog, catalog_text, requires_properties, schema_view, texts, SchemaNames};
use vstd::string::StringSliceAdditionalSpecFns;
use vstd::utf8::{encode_utf8, is_char_boundary};
use crate::encoding::{push_www_pair, www_pair, encode_bytes, form_bytes, is_url_safe, percent_encode, push_form_encoded};
use crate::fmt::{cut, cut_exec, cut_ok, byte_len, byte_prefix, byte_prefix_spec, get_nested_str_or, get_str_or, join_spec, join_strs, str_or, views};
use crate::http::{fail_view, form_view, ok_view, send, send_form, send_view, Method, Step, StepView};
use crate::json::{get_array, get_bool, get_str, get_u64, json_text, push_quoted, quoted, to_json_string, write_json, Json};
use crate::text::{
    dec_nat, owned, push_chars, push_str, push_u64, str_chars, str_eq, trim_end_char, trim_end_spec,
    trim_end_ws, trim_end_ws_spec, trim_start_char, trim_start_spec,
};

verus! {

/// Slack credentials (`~/.osmozzz/slack.toml`).
pub struct SlackConfig {
    pub token: String,
    pub team_id: Option<String>,
}

impl SlackConfig {
    /// The API URL of `path`, whatever slashes it starts with.
    pub fn api(&self, path: &str) -> (r: String)
        ensures
            r@ == "https://slack.com/api/"@ + trim_start_spec(path@, '/'),
    {
        let mut out = owned("https://slack.com/api/");
        push_chars(&mut out, &trim_start_char(&str_chars(path), '/'));
        out
    }
}

/// The error reported for a Slack response whose `ok` is not `true`.
pub open spec fn slack_error_text(resp: Json) -> Seq<char> {
    let err = str_or(resp, "error"@, "unknown_error"@);
    let detail = str_or(resp, "detail"@, seq![]);
    if detail.len() == 0 {
        "Slack API error: "@ + err
    } else {
        "Slack API error: "@ + err + " — "@ + detail
    }
}

/// Checks the `ok` member of a Slack response: success exactly when it is `true`, else the
/// error and detail Slack reported.
pub fn slack_ok(resp: &Json) -> (r: Result<(), String>)
    ensures
        r is Ok <==> resp.at("ok"@).bool_of() == Some(true),
        r matches Err(e) ==> e@ == slack_error_text(*resp),
{
    match get_bool(resp, "ok") {
        Some(true) => Ok(()),
        _ => {
            proof {
                reveal_strlit("");
            }
            let err = get_str_or(resp, "error", "unknown_error");
            let detail = get_str_or(resp, "detail", "");
            let mut out = owned("Slack API error: ");
            push_str(&mut out, err);
            if !detail.is_empty() {
                push_str(&mut out, " — ");
                push_str(&mut out, detail);
            }
            Err(out)
        },
    }
}

/// Encodes a query value: unreserved characters kept, a space as `+`, every other byte
/// percent-encoded.
pub fn urlencoding_simple(s: &str) -> (r: String)
    ensures
        r@ == encode_bytes(s.spec_bytes(), true),
        forall|i: int| 0 <= i < r@.len() ==> is_url_safe(#[trigger] r@[i]),
{
    percent_encode(s, true)
}


// ─── Tool calls ──────────────────────────────────────────────────────────────

/// The API URL of `path` (see [`SlackConfig::api`]).
pub open spec fn api_url(path: Seq<char>) -> Seq<char> {
    "https://slack.com/api/"@ + trim_start_spec(path, '/')
}

/// The outcome of a Slack response: `text` when its `ok` is `true`, else the error it reports.
pub open spec fn checked(resp: Json, text: Seq<char>) -> StepView {
    if resp.at("ok"@).bool_of() == Some(true) {
        ok_view(text)
    } else {
        fail_view(slack_error_text(resp))
    }
}

fn checked_exec(resp: &Json, text: String) -> (s: Step)
    ensures
        s@ == checked(*resp, text@),
{
    match slack_ok(resp) {
        Ok(()) => Step::Done(Ok(text)),
        Err(e) => Step::Done(Err(e)),
    }
}

/// A tool that makes one request: the request, then its checked outcome.
pub open spec fn one_call(req: StepView, rs: Seq<Json>, text: spec_fn(Json) -> Seq<char>) -> StepView {
    if rs.len() == 0 {
        req
    } else {
        checked(rs[0], text(rs[0]))
    }
}

/// The error for a missing argument.
pub open spec fn required_text(key: Seq<char>) -> Seq<char> {
    "Paramètre '"@ + key + "' requis"@
}

fn required(key: &str) -> (s: Step)
    ensures
        s@ == fail_view(required_text(key@)),
{
    let mut e = owned("Paramètre '");
    push_str(&mut e, key);
    push_str(&mut e, "' requis");
    Step::Done(Err(e))
}

fn concat(a: &str, b: &str) -> (r: String)
    ensures
        r@ == a@ + b@,
{
    let mut r = owned(a);
    push_str(&mut r, b);
    r
}

/// `prefix` and the argument when it is given and not empty.
pub open spec fn opt_param(prefix: Seq<char>, o: Option<Seq<char>>) -> Seq<char> {
    match o {
        Some(v) => if v.len() > 0 {
            prefix + v
        } else {
            seq![]
        },
        None => seq![],
    }
}

fn push_opt_param(out: &mut String, prefix: &str, o: Option<&str>)
    ensures
        final(out)@ == old(out)@ + opt_param(
            prefix@,
            match o {
                Some(v) => Some(v@),
                None => None,
            },
        ),
{
    match o {
        Some(v) => if !v.is_empty() {
            push_str(out, prefix);
            push_str(out, v);
        },
        None => {},
    }
}


/// Member `key` of `j` as a boolean, `false` when it is not one.
pub open spec fn flag(j: Json, key: Seq<char>) -> bool {
    match j.at(key).bool_of() {
        Some(b) => b,
        None => false,
    }
}

fn get_flag(j: &Json, key: &str) -> (b: bool)
    ensures
        b == flag(*j, key@),
{
    match get_bool(j, key) {
        Some(b) => b,
        None => false,
    }
}

/// Member `key` of `j` as a natural number, `d` when it is not one.
pub open spec fn count_or(j: Json, key: Seq<char>, d: nat) -> nat {
    match j.at(key).u64_of() {
        Some(n) => n as nat,
        None => d,
    }
}

fn get_count_or(j: &Json, key: &str, d: u64) -> (n: u64)
    ensures
        n == count_or(*j, key@, d as nat),
{
    match get_u64(j, key) {
        Some(n) => n,
        None => d,
    }
}

/// The kinds of listed items.
#[derive(Clone, Copy)]
pub enum Listed {
    Channel,
    Message,
    Parent,
    Reply,
    Match,
    User,
}

/// The text of a message as listed, `(contenu non textuel)` when it has none.
pub open spec fn message_body(m: Json) -> Seq<char> {
    str_or(m, "text"@, "(contenu non textuel)"@)
}

/// The texts of an item that get cut, with the length they are cut at.
pub open spec fn item_cuts_ok(kind: Listed, j: Json) -> bool {
    match kind {
        Listed::Channel => cut_ok(str_or(j.at("topic"@), "value"@, ""@), 60),
        Listed::Match => cut_ok(str_or(j, "text"@, "—"@), 100),
        Listed::User => true,
        _ => cut_ok(message_body(j), 120),
    }
}

/// One listed item, with its line break.
pub open spec fn item_text(kind: Listed, j: Json) -> Seq<char> {
    match kind {
        Listed::Channel => {
            let topic = str_or(j.at("topic"@), "value"@, ""@);
            "• ["@ + str_or(j, "id"@, "—"@) + "] #"@ + str_or(j, "name"@, "—"@) + " ("@ + dec_nat(
                count_or(j, "num_members"@, 0),
            ) + " membres)"@ + (if topic.len() == 0 {
                seq![]
            } else {
                " — "@ + cut(topic, 60)
            }) + "\n"@
        },
        Listed::Message => {
            let replies = count_or(j, "reply_count"@, 0);
            "["@ + str_or(j, "ts"@, "—"@) + "] "@ + str_or(j, "user"@, "(bot/app)"@) + ": "@ + cut(
                message_body(j),
                120,
            ) + (if replies > 0 {
                " [🧵 "@ + dec_nat(replies) + " réponse(s)]"@
            } else {
                seq![]
            }) + "\n"@
        },
        Listed::Parent => "[parent] ["@ + str_or(j, "ts"@, "—"@) + "] "@ + str_or(
            j,
            "user"@,
            "(bot/app)"@,
        ) + ": "@ + cut(message_body(j), 120) + "\n"@,
        Listed::Reply => "[réponse] ["@ + str_or(j, "ts"@, "—"@) + "] "@ + str_or(
            j,
            "user"@,
            "(bot/app)"@,
        ) + ": "@ + cut(message_body(j), 120) + "\n"@,
        Listed::Match => "• ["@ + str_or(j, "ts"@, "—"@) + "] @"@ + str_or(j, "username"@, "—"@)
            + " dans #"@ + str_or(j.at("channel"@), "name"@, "—"@) + ": "@ + cut(
            str_or(j, "text"@, "—"@),
            100,
        ) + "\n"@,
        Listed::User => "• ["@ + str_or(j, "id"@, "—"@) + "] @"@ + str_or(j, "name"@, "—"@) + " ("@
            + str_or(j, "real_name"@, "—"@) + ")"@ + (if flag(j, "is_bot"@) {
            " [bot]"@
        } else {
            seq![]
        }) + "\n"@,
    }
}

fn message_item(kind: Listed, j: &Json) -> (r: String)
    requires
        kind == Listed::Message || kind == Listed::Parent || kind == Listed::Reply,
        item_cuts_ok(kind, *j),
    ensures
        r@ == item_text(kind, *j),
{
    let mut out = match kind {
        Listed::Parent => owned("[parent] ["),
        Listed::Reply => owned("[réponse] ["),
        _ => owned("["),
    };
    push_str(&mut out, get_str_or(j, "ts", "—"));
    push_str(&mut out, "] ");
    push_str(&mut out, get_str_or(j, "user", "(bot/app)"));
    push_str(&mut out, ": ");
    push_str(&mut out, cut_exec(get_str_or(j, "text", "(contenu non textuel)"), 120));
    match kind {
        Listed::Message => {
            let replies = get_count_or(j, "reply_count", 0);
            if replies > 0 {
                push_str(&mut out, " [🧵 ");
                push_u64(&mut out, replies);
                push_str(&mut out, " réponse(s)]");
            }
        },
        _ => {},
    }
    push_str(&mut out, "\n");
    out
}

fn format_item(kind: Listed, j: &Json) -> (r: String)
    requires
        item_cuts_ok(kind, *j),
    ensures
        r@ == item_text(kind, *j),
{
    match kind {
        Listed::Channel => {
            let topic = match j.get("topic") {
                Some(t) => get_str_or(t, "value", ""),
                None => "",
            };
            let mut out = owned("• [");
            push_str(&mut out, get_str_or(j, "id", "—"));
            push_str(&mut out, "] #");
            push_str(&mut out, get_str_or(j, "name", "—"));
            push_str(&mut out, " (");
            push_u64(&mut out, get_count_or(j, "num_members", 0));
            push_str(&mut out, " membres)");
            if !topic.is_empty() {
                push_str(&mut out, " — ");
                push_str(&mut out, cut_exec(topic, 60));
            }
            push_str(&mut out, "\n");
            out
        },
        Listed::Match => {
            let mut out = owned("• [");
            push_str(&mut out, get_str_or(j, "ts", "—"));
            push_str(&mut out, "] @");
            push_str(&mut out, get_str_or(j, "username", "—"));
            push_str(&mut out, " dans #");
            push_str(&mut out, get_nested_str_or(j, "channel", "name", "—"));
            push_str(&mut out, ": ");
            push_str(&mut out, cut_exec(get_str_or(j, "text", "—"), 100));
            push_str(&mut out, "\n");
            out
        },
        Listed::User => {
            let mut out = owned("• [");
            push_str(&mut out, get_str_or(j, "id", "—"));
            push_str(&mut out, "] @");
            push_str(&mut out, get_str_or(j, "name", "—"));
            push_str(&mut out, " (");
            push_str(&mut out, get_str_or(j, "real_name", "—"));
            push_str(&mut out, ")");
            if get_flag(j, "is_bot") {
                push_str(&mut out, " [bot]");
            }
            push_str(&mut out, "\n");
            out
        },
        _ => message_item(kind, j),
    }
}

/// The items' texts, one after the other.
pub open spec fn lines(kind: Listed, items: Seq<Json>) -> Seq<char>
    decreases items.len(),
{
    if items.len() == 0 {
        seq![]
    } else {
        lines(kind, items.drop_last()) + item_text(kind, items.last())
    }
}

/// Every item can be cut where it is listed.
pub open spec fn all_cut_ok(kind: Listed, items: Seq<Json>) -> bool {
    forall|i: int| 0 <= i < items.len() ==> #[trigger] item_cuts_ok(kind, items[i])
}

fn push_lines(out: &mut String, kind: Listed, items: &Vec<Json>, start: usize)
    requires
        start <= items@.len(),
        all_cut_ok(kind, items@),
    ensures
        final(out)@ == old(out)@ + lines(kind, items@.skip(start as int)),
{
    let n = items.len();
    for i in start..n
        invariant
            n == items@.len(),
            start <= n,
            all_cut_ok(kind, items@),
            out@ == old(out)@ + lines(kind, items@.subrange(start as int, i as int)),
    {
        assert(items@.subrange(start as int, i + 1).drop_last() == items@.subrange(
            start as int,
            i as int,
        ));
        assert(items@.subrange(start as int, i + 1).last() == items@[i as int]);
        assert(item_cuts_ok(kind, items@[i as int]));
        push_str(out, format_item(kind, &items[i]).as_str());
    }
    assert(items@.subrange(start as int, n as int) == items@.skip(start as int));
}

/// The array member `key` of `r`, empty when it is not an array.
pub open spec fn items_of(r: Json, key: Seq<char>) -> Seq<Json> {
    match r.at(key).array_of() {
        Some(a) => a,
        None => seq![],
    }
}

/// The pagination line of a list response, when it has a next cursor.
pub open spec fn pagination(r: Json) -> Seq<char> {
    let c = str_or(r.at("response_metadata"@), "next_cursor"@, ""@);
    if c.len() > 0 {
        "\nPagination : cursor="@ + c
    } else {
        seq![]
    }
}

fn push_pagination(out: &mut String, r: &Json)
    ensures
        final(out)@ == old(out)@ + pagination(*r),
{
    let c = get_nested_str_or(r, "response_metadata", "next_cursor", "");
    if !c.is_empty() {
        push_str(out, "\nPagination : cursor=");
        push_str(out, c);
    }
}


/// A limit argument `key`, `d` by default, at most `cap`.
pub open spec fn capped(args: Json, key: Seq<char>, d: nat, cap: nat) -> nat {
    let l = count_or(args, key, d);
    if l > cap {
        cap
    } else {
        l
    }
}

fn get_capped(args: &Json, key: &str, d: u64, cap: u64) -> (n: u64)
    ensures
        n == capped(*args, key@, d as nat, cap as nat),
{
    let l = get_count_or(args, key, d);
    if l > cap {
        cap
    } else {
        l
    }
}

/// A boolean as `Display` writes it.
pub open spec fn bool_text(b: bool) -> Seq<char> {
    json_text(Json::Bool(b))
}

/// A listing: the count, `header`, the lines and the pagination, without trailing white
/// space.
pub open spec fn listing(count: nat, header: Seq<char>, body: Seq<char>, r: Json) -> Seq<char> {
    trim_end_ws_spec(dec_nat(count) + header + body + pagination(r))
}

/// `slack_list_channels`.
pub open spec fn channels_view(args: Json, rs: Seq<Json>) -> StepView {
    one_call(
        send_view(
            Method::Get,
            api_url("conversations.list"@) + "?limit="@ + dec_nat(capped(args, "limit"@, 100, 1000))
                + "&exclude_archived="@ + bool_text(
                match args.at("exclude_archived"@).bool_of() {
                    Some(b) => b,
                    None => true,
                },
            ) + "&types="@ + str_or(args, "types"@, "public_channel"@) + opt_param(
                "&cursor="@,
                args.at("cursor"@).str_of(),
            ),
            None,
        ),
        rs,
        |r: Json|
            if items_of(r, "channels"@).len() == 0 {
                "Aucun channel trouvé."@
            } else {
                listing(
                    items_of(r, "channels"@).len(),
                    " channel(s) :\n"@,
                    lines(Listed::Channel, items_of(r, "channels"@)),
                    r,
                )
            },
    )
}

/// `slack_get_channel_history`.
pub open spec fn history_view(cid: Seq<char>, args: Json, rs: Seq<Json>) -> StepView {
    one_call(
        send_view(
            Method::Get,
            api_url("conversations.history"@) + "?channel="@ + cid + "&limit="@ + dec_nat(
                capped(args, "limit"@, 20, 200),
            ) + opt_param("&cursor="@, args.at("cursor"@).str_of()) + opt_param(
                "&oldest="@,
                args.at("oldest"@).str_of(),
            ) + opt_param("&latest="@, args.at("latest"@).str_of()),
            None,
        ),
        rs,
        |r: Json|
            if items_of(r, "messages"@).len() == 0 {
                "Aucun message dans #"@ + cid + "."@
            } else {
                listing(
                    items_of(r, "messages"@).len(),
                    " message(s) dans #"@ + cid + " :\n"@,
                    lines(Listed::Message, items_of(r, "messages"@)),
                    r,
                )
            },
    )
}

/// The messages of a thread: the parent, then the replies.
pub open spec fn thread_lines(items: Seq<Json>) -> Seq<char> {
    if items.len() == 0 {
        seq![]
    } else {
        item_text(Listed::Parent, items[0]) + lines(Listed::Reply, items.skip(1))
    }
}

/// `slack_get_thread_replies`.
pub open spec fn replies_view(cid: Seq<char>, ts: Seq<char>, args: Json, rs: Seq<Json>) -> StepView {
    one_call(
        send_view(
            Method::Get,
            api_url("conversations.replies"@) + "?channel="@ + cid + "&ts="@ + ts + "&limit="@ + dec_nat(
                capped(args, "limit"@, 20, 200),
            ) + opt_param("&cursor="@, args.at("cursor"@).str_of()),
            None,
        ),
        rs,
        |r: Json|
            if items_of(r, "messages"@).len() == 0 {
                "Aucune réponse dans le fil "@ + ts + "."@
            } else {
                listing(
                    items_of(r, "messages"@).len(),
                    " message(s) dans le fil "@ + ts + " :\n"@,
                    thread_lines(items_of(r, "messages"@)),
                    r,
                )
            },
    )
}

/// `slack_search_messages`.
pub open spec fn search_view(query: Seq<char>, args: Json, rs: Seq<Json>) -> StepView {
    one_call(
        send_view(
            Method::Get,
            api_url("search.messages"@) + "?query="@ + encode_bytes(encode_utf8(query), true) + "&sort="@
                + str_or(args, "sort"@, "score"@) + "&count="@ + dec_nat(capped(args, "count"@, 20, 100))
                + "&page="@ + dec_nat(count_or(args, "page"@, 1)),
            None,
        ),
        rs,
        |r: Json|
            if items_of(r.at("messages"@), "matches"@).len() == 0 {
                "Aucun message trouvé pour '"@ + query + "'."@
            } else {
                trim_end_ws_spec(
                    dec_nat(items_of(r.at("messages"@), "matches"@).len()) + " résultat(s) (total: "@
                        + dec_nat(count_or(r.at("messages"@), "total"@, 0)) + ") pour '"@ + query
                        + "' :\n"@ + lines(Listed::Match, items_of(r.at("messages"@), "matches"@)),
                )
            },
    )
}

/// The members that are not deleted, in order.
pub open spec fn active_members(items: Seq<Json>) -> Seq<Json>
    decreases items.len(),
{
    if items.len() == 0 {
        seq![]
    } else if flag(items.last(), "deleted"@) {
        active_members(items.drop_last())
    } else {
        active_members(items.drop_last()).push(items.last())
    }
}

/// `slack_get_users`.
pub open spec fn users_view(args: Json, rs: Seq<Json>) -> StepView {
    one_call(
        send_view(
            Method::Get,
            api_url("users.list"@) + "?limit="@ + dec_nat(capped(args, "limit"@, 100, 1000)) + opt_param(
                "&cursor="@,
                args.at("cursor"@).str_of(),
            ),
            None,
        ),
        rs,
        |r: Json|
            if items_of(r, "members"@).len() == 0 {
                "Aucun utilisateur trouvé."@
            } else {
                listing(
                    active_members(items_of(r, "members"@)).len(),
                    " utilisateur(s) actif(s) :\n"@,
                    lines(Listed::User, active_members(items_of(r, "members"@))),
                    r,
                )
            },
    )
}

/// What the listing tools need of a successful response: the texts they cut can be cut.
pub open spec fn handle_ok(name: Seq<char>, rs: Seq<Json>) -> bool {
    rs.len() >= 1 && rs[0].at("ok"@).bool_of() == Some(true) ==> {
        let r = rs[0];
        &&& name == "slack_list_channels"@ ==> all_cut_ok(Listed::Channel, items_of(r, "channels"@))
        &&& name == "slack_get_channel_history"@ ==> all_cut_ok(
            Listed::Message,
            items_of(r, "messages"@),
        )
        &&& name == "slack_get_thread_replies"@ ==> all_cut_ok(Listed::Reply, items_of(r, "messages"@))
        &&& name == "slack_search_messages"@ ==> all_cut_ok(
            Listed::Match,
            items_of(r.at("messages"@), "matches"@),
        )
    }
}

/// `"key":value,` for an array argument when it is given, else nothing.
pub open spec fn blocks_member(args: Json) -> Seq<char> {
    match args.at("blocks"@).array_of() {
        Some(_) => "\"blocks\":"@ + json_text(args.at("blocks"@)) + ","@,
        None => seq![],
    }
}

fn push_blocks_member(out: &mut String, args: &Json)
    ensures
        final(out)@ == old(out)@ + blocks_member(*args),
{
    match args.get("blocks") {
        Some(b) => match b.as_array() {
            Some(_) => {
                push_str(out, "\"blocks\":");
                write_json(out, b);
                push_str(out, ",");
            },
            None => {},
        },
        None => {},
    }
}

/// The `mrkdwn` argument, `true` by default.
pub open spec fn mrkdwn_of(args: Json) -> bool {
    match args.at("mrkdwn"@).bool_of() {
        Some(b) => b,
        None => true,
    }
}

/// `slack_get_channel_info`.
pub open spec fn channel_info_text(cid: Seq<char>, r: Json) -> Seq<char> {
    let c = r.at("channel"@);
    "Channel "@ + str_or(c, "id"@, cid) + "\nNom        : #"@ + str_or(c, "name"@, "—"@) + "\nType       : "@
        + (if flag(c, "is_private"@) {
        "privé"@
    } else {
        "public"@
    }) + "\nMembres    : "@ + dec_nat(count_or(c, "num_members"@, 0)) + "\nSujet      : "@ + str_or(
        c.at("topic"@),
        "value"@,
        "—"@,
    ) + "\nObjectif   : "@ + str_or(c.at("purpose"@), "value"@, "—"@) + "\nCréé       : "@ + dec_nat(
        count_or(c, "created"@, 0),
    ) + "\nArchivé    : "@ + bool_text(flag(c, "is_archived"@))
}

/// The user ids given to `slack_invite_to_channel`: its string items.
pub open spec fn strings_of(items: Seq<Json>) -> Seq<Seq<char>>
    decreases items.len(),
{
    if items.len() == 0 {
        seq![]
    } else {
        match items.last().str_of() {
            Some(s) => strings_of(items.drop_last()).push(s),
            None => strings_of(items.drop_last()),
        }
    }
}

/// The tools on one channel.
/// The channel tools that read it or change its members or topic.
pub open spec fn channel_admin_view(name: Seq<char>, cid: Seq<char>, args: Json, rs: Seq<Json>) -> StepView {
    if name == "slack_get_channel_info"@ {
        one_call(
            send_view(Method::Get, api_url("conversations.info"@) + "?channel="@ + cid, None),
            rs,
            |r: Json| channel_info_text(cid, r),
        )
    } else if name == "slack_invite_to_channel"@ {
        match args.at("user_ids"@).array_of() {
            None => fail_view("Paramètre 'user_ids' requis (tableau)"@),
            Some(a) => {
                let ids = strings_of(a);
                if ids.len() == 0 {
                    fail_view("'user_ids' ne peut pas être vide"@)
                } else {
                    one_call(
                        send_view(
                            Method::Post,
                            api_url("conversations.invite"@),
                            Some(
                                "{\"channel\":"@ + quoted(cid) + ",\"users\":"@ + quoted(
                                    join_spec(ids, ","@),
                                ) + "}"@,
                            ),
                        ),
                        rs,
                        |r: Json|
                            dec_nat(ids.len()) + " utilisateur(s) invité(s) dans le channel "@ + cid
                                + "."@,
                    )
                }
            },
        }
    } else {
        match args.at("topic"@).str_of() {
            None => fail_view(required_text("topic"@)),
            Some(topic) => one_call(
                send_view(
                    Method::Post,
                    api_url("conversations.setTopic"@),
                    Some("{\"channel\":"@ + quoted(cid) + ",\"topic\":"@ + quoted(topic) + "}"@),
                ),
                rs,
                |r: Json| "Sujet du channel "@ + cid + " mis à jour : "@ + topic,
            ),
        }
    }
}

/// The channel tools that write, change or react to messages.
pub open spec fn message_view(name: Seq<char>, cid: Seq<char>, args: Json, rs: Seq<Json>) -> StepView {
    if name == "slack_post_message"@ {
        match args.at("text"@).str_of() {
            None => fail_view(required_text("text"@)),
            Some(text) => one_call(
                send_view(
                    Method::Post,
                    api_url("chat.postMessage"@),
                    Some(
                        "{"@ + blocks_member(args) + "\"channel\":"@ + quoted(cid) + ",\"mrkdwn\":"@
                            + bool_text(mrkdwn_of(args)) + ",\"text\":"@ + quoted(text) + match args.at(
                            "thread_ts"@,
                        ).str_of() {
                            Some(ts) => if ts.len() > 0 {
                                ",\"thread_ts\":"@ + quoted(ts)
                            } else {
                                seq![]
                            },
                            None => seq![],
                        } + "}"@,
                    ),
                ),
                rs,
                |r: Json|
                    "Message envoyé dans "@ + cid + ".\nTimestamp : "@ + str_or(r, "ts"@, "—"@),
            ),
        }
    } else if name == "slack_reply_to_thread"@ {
        match args.at("thread_ts"@).str_of() {
            None => fail_view(required_text("thread_ts"@)),
            Some(ts) => match args.at("text"@).str_of() {
                None => fail_view(required_text("text"@)),
                Some(text) => one_call(
                    send_view(
                        Method::Post,
                        api_url("chat.postMessage"@),
                        Some(
                            "{"@ + blocks_member(args) + "\"channel\":"@ + quoted(cid) + ",\"mrkdwn\":"@
                                + bool_text(mrkdwn_of(args)) + ",\"text\":"@ + quoted(text)
                                + ",\"thread_ts\":"@ + quoted(ts) + "}"@,
                        ),
                    ),
                    rs,
                    |r: Json|
                        "Réponse envoyée dans le fil "@ + ts + " (channel: "@ + cid + ").\nTimestamp : "@
                            + str_or(r, "ts"@, "—"@),
                ),
            },
        }
    } else if name == "slack_update_message"@ {
        match args.at("ts"@).str_of() {
            None => fail_view(required_text("ts"@)),
            Some(ts) => match args.at("text"@).str_of() {
                None => fail_view(required_text("text"@)),
                Some(text) => one_call(
                    send_view(
                        Method::Post,
                        api_url("chat.update"@),
                        Some(
                            "{"@ + blocks_member(args) + "\"channel\":"@ + quoted(cid) + ",\"text\":"@
                                + quoted(text) + ",\"ts\":"@ + quoted(ts) + "}"@,
                        ),
                    ),
                    rs,
                    |r: Json| "Message "@ + ts + " modifié dans "@ + cid + "."@,
                ),
            },
        }
    } else if name == "slack_delete_message"@ {
        match args.at("ts"@).str_of() {
            None => fail_view(required_text("ts"@)),
            Some(ts) => one_call(
                send_view(
                    Method::Post,
                    api_url("chat.delete"@),
                    Some("{\"channel\":"@ + quoted(cid) + ",\"ts\":"@ + quoted(ts) + "}"@),
                ),
                rs,
                |r: Json| "Message "@ + ts + " supprimé du channel "@ + cid + "."@,
            ),
        }
    } else {
        match args.at("timestamp"@).str_of() {
            None => fail_view(required_text("timestamp"@)),
            Some(ts) => match args.at("reaction_name"@).str_of() {
                None => fail_view(required_text("reaction_name"@)),
                Some(rn) => {
                    let clean = trim_start_spec(trim_end_spec(rn, ':'), ':');
                    one_call(
                        send_view(
                            Method::Post,
                            api_url("reactions.add"@),
                            Some(
                                "{\"channel\":"@ + quoted(cid) + ",\"name\":"@ + quoted(clean)
                                    + ",\"timestamp\":"@ + quoted(ts) + "}"@,
                            ),
                        ),
                        rs,
                        |r: Json| "Réaction :"@ + clean + ": ajoutée au message "@ + ts + "."@,
                    )
                },
            },
        }
    }
}

pub open spec fn channel_tool_view(name: Seq<char>, cid: Seq<char>, args: Json, rs: Seq<Json>) -> StepView {
    if name == "slack_get_channel_info"@ || name == "slack_invite_to_channel"@ || name
        == "slack_set_topic"@ {
        channel_admin_view(name, cid, args, rs)
    } else if name == "slack_post_message"@ || name == "slack_reply_to_thread"@ || name
        == "slack_update_message"@ || name == "slack_delete_message"@ || name == "slack_add_reaction"@ {
        message_view(name, cid, args, rs)
    } else if name == "slack_get_channel_history"@ {
        history_view(cid, args, rs)
    } else if name == "slack_get_thread_replies"@ {
        match args.at("thread_ts"@).str_of() {
            None => fail_view(required_text("thread_ts"@)),
            Some(ts) => replies_view(cid, ts, args, rs),
        }
    } else {
        match args.at("content"@).str_of() {
            None => fail_view(required_text("content"@)),
            Some(content) => match args.at("filename"@).str_of() {
                None => fail_view(required_text("filename"@)),
                Some(filename) => one_call(
                    form_view(api_url("files.upload"@), upload_form(cid, filename, content, args)),
                    rs,
                    |r: Json|
                        "Fichier uploadé dans "@ + cid + ".\nID   : "@ + str_or(r.at("file"@), "id"@, "—"@)
                            + "\nNom  : "@ + str_or(r.at("file"@), "name"@, filename),
                ),
            },
        }
    }
}


/// The form of `slack_upload_file`: channel, name and content, then the optional title and
/// comment.
pub open spec fn upload_form(cid: Seq<char>, filename: Seq<char>, content: Seq<char>, args: Json) -> Seq<char> {
    www_pair("channels"@, cid) + "&"@ + www_pair("filename"@, filename) + "&"@ + www_pair(
        "content"@,
        content,
    ) + match args.at("title"@).str_of() {
        Some(t) => "&"@ + www_pair("title"@, t),
        None => seq![],
    } + match args.at("initial_comment"@).str_of() {
        Some(c) => "&"@ + www_pair("initial_comment"@, c),
        None => seq![],
    }
}

/// The tools that name a channel.
pub open spec fn is_channel_tool(name: Seq<char>) -> bool {
    name == "slack_get_channel_info"@ || name == "slack_invite_to_channel"@ || name
        == "slack_set_topic"@ || name == "slack_post_message"@ || name == "slack_reply_to_thread"@
        || name == "slack_update_message"@ || name == "slack_delete_message"@ || name
        == "slack_add_reaction"@ || name == "slack_get_channel_history"@ || name
        == "slack_get_thread_replies"@ || name == "slack_upload_file"@
}

/// `slack_get_user_profile`.
pub open spec fn profile_text(uid: Seq<char>, r: Json) -> Seq<char> {
    let p = r.at("profile"@);
    "Profil "@ + uid + "\nNom réel     : "@ + str_or(p, "real_name"@, "—"@) + "\nNom affiché  : "@ + str_or(
        p,
        "display_name"@,
        "—"@,
    ) + "\nTitre        : "@ + str_or(p, "title"@, "—"@) + "\nEmail        : "@ + str_or(
        p,
        "email"@,
        "—"@,
    ) + "\nTéléphone    : "@ + str_or(p, "phone"@, "—"@) + "\nTimezone     : "@ + str_or(
        p,
        "tz"@,
        "—"@,
    ) + "\nStatut       : "@ + str_or(p, "status_emoji"@, ""@) + " "@ + str_or(
        p,
        "status_text"@,
        "—"@,
    )
}

/// `slack_get_team_info`.
pub open spec fn team_text(r: Json) -> Seq<char> {
    let t = r.at("team"@);
    "Workspace Slack\nID       : "@ + str_or(t, "id"@, "—"@) + "\nNom      : "@ + str_or(t, "name"@, "—"@)
        + "\nDomaine  : "@ + str_or(t, "domain"@, "—"@) + ".slack.com\nEmail    : @"@ + str_or(
        t,
        "email_domain"@,
        "—"@,
    ) + "\nPlan     : "@ + str_or(t, "plan"@, "—"@)
}

/// What a call of Slack tool `name` with `args` does next, given the responses so far.
pub open spec fn handle_view(cfg: SlackConfig, name: Seq<char>, args: Json, rs: Seq<Json>) -> StepView {
    if name == "slack_list_channels"@ {
        channels_view(args, rs)
    } else if name == "slack_create_channel"@ {
        match args.at("name"@).str_of() {
            None => fail_view(required_text("name"@)),
            Some(n) => {
                let private = flag(args, "is_private"@);
                one_call(
                    send_view(
                        Method::Post,
                        api_url("conversations.create"@),
                        Some("{\"is_private\":"@ + bool_text(private) + ",\"name\":"@ + quoted(n) + "}"@),
                    ),
                    rs,
                    |r: Json|
                        "Channel créé.\nID   : "@ + str_or(r.at("channel"@), "id"@, "—"@) + "\nNom  : #"@ + n
                            + "\nType : "@ + if private {
                            "privé"@
                        } else {
                            "public"@
                        },
                )
            },
        }
    } else if is_channel_tool(name) {
        match args.at("channel_id"@).str_of() {
            None => fail_view(required_text("channel_id"@)),
            Some(cid) => channel_tool_view(name, cid, args, rs),
        }
    } else if name == "slack_search_messages"@ {
        match args.at("query"@).str_of() {
            None => fail_view(required_text("query"@)),
            Some(q) => search_view(q, args, rs),
        }
    } else if name == "slack_get_users"@ {
        users_view(args, rs)
    } else if name == "slack_get_user_profile"@ {
        match args.at("user_id"@).str_of() {
            None => fail_view(required_text("user_id"@)),
            Some(uid) => one_call(
                send_view(Method::Get, api_url("users.profile.get"@) + "?user="@ + uid, None),
                rs,
                |r: Json| profile_text(uid, r),
            ),
        }
    } else if name == "slack_get_team_info"@ {
        one_call(
            send_view(
                Method::Get,
                api_url("team.info"@) + match cfg.team_id {
                    Some(t) => if t@.len() > 0 {
                        "?team="@ + t@
                    } else {
                        seq![]
                    },
                    None => seq![],
                },
                None,
            ),
            rs,
            |r: Json| team_text(r),
        )
    } else if name == "slack_open_dm"@ {
        match args.at("user_id"@).str_of() {
            None => fail_view(required_text("user_id"@)),
            Some(uid) => one_call(
                send_view(Method::Post, api_url("conversations.open"@), Some("{\"users\":"@ + quoted(uid) + "}"@)),
                rs,
                |r: Json|
                    "Conversation DM "@ + (if flag(r, "already_open"@) {
                        "déjà ouverte"@
                    } else {
                        "ouverte"@
                    }) + " avec "@ + uid + ".\nChannel ID : "@ + str_or(r.at("channel"@), "id"@, "—"@)
                        + "\n(Utiliser slack_post_message avec ce channel_id pour envoyer un message.)"@,
            ),
        }
    } else {
        fail_view("Tool Slack inconnu: "@ + name)
    }
}


fn list_channels(cfg: &SlackConfig, args: &Json, rs: &Vec<Json>) -> (s: Step)
    requires
        rs@.len() >= 1 && rs@[0].at("ok"@).bool_of() == Some(true) ==> all_cut_ok(
            Listed::Channel,
            items_of(rs@[0], "channels"@),
        ),
    ensures
        s@ == channels_view(*args, rs@),
{
    if rs.len() == 0 {
        let mut url = cfg.api("conversations.list");
        push_str(&mut url, "?limit=");
        push_u64(&mut url, get_capped(args, "limit", 100, 1000));
        push_str(&mut url, "&exclude_archived=");
        let ex = match get_bool(args, "exclude_archived") {
            Some(b) => b,
            None => true,
        };
        push_str(&mut url, to_json_string(&Json::Bool(ex)).as_str());
        push_str(&mut url, "&types=");
        push_str(&mut url, get_str_or(args, "types", "public_channel"));
        push_opt_param(&mut url, "&cursor=", get_str(args, "cursor"));
        return send(Method::Get, url, None);
    }
    let r = &rs[0];
    if get_bool(r, "ok") != Some(true) {
        return checked_exec(r, String::new());
    }
    let text = match get_array(r, "channels") {
        Some(items) => if items.len() == 0 {
            owned("Aucun channel trouvé.")
        } else {
            let mut out = String::new();
            push_u64(&mut out, items.len() as u64);
            push_str(&mut out, " channel(s) :\n");
            push_lines(&mut out, Listed::Channel, items, 0);
            assert(items@.skip(0) == items@);
            push_pagination(&mut out, r);
            assert(out@ =~= dec_nat(items@.len()) + " channel(s) :\n"@ + lines(Listed::Channel, items@)
                + pagination(*r));
            trim_end_ws(out.as_str())
        },
        None => owned("Aucun channel trouvé."),
    };
    checked_exec(r, text)
}

fn history(cfg: &SlackConfig, cid: &str, args: &Json, rs: &Vec<Json>) -> (s: Step)
    requires
        rs@.len() >= 1 && rs@[0].at("ok"@).bool_of() == Some(true) ==> all_cut_ok(
            Listed::Message,
            items_of(rs@[0], "messages"@),
        ),
    ensures
        s@ == history_view(cid@, *args, rs@),
{
    if rs.len() == 0 {
        let mut url = cfg.api("conversations.history");
        push_str(&mut url, "?channel=");
        push_str(&mut url, cid);
        push_str(&mut url, "&limit=");
        push_u64(&mut url, get_capped(args, "limit", 20, 200));
        push_opt_param(&mut url, "&cursor=", get_str(args, "cursor"));
        push_opt_param(&mut url, "&oldest=", get_str(args, "oldest"));
        push_opt_param(&mut url, "&latest=", get_str(args, "latest"));
        return send(Method::Get, url, None);
    }
    let r = &rs[0];
    if get_bool(r, "ok") != Some(true) {
        return checked_exec(r, String::new());
    }
    let text = match get_array(r, "messages") {
        Some(items) => if items.len() == 0 {
            let mut t = owned("Aucun message dans #");
            push_str(&mut t, cid);
            push_str(&mut t, ".");
            t
        } else {
            let mut out = String::new();
            push_u64(&mut out, items.len() as u64);
            push_str(&mut out, " message(s) dans #");
            push_str(&mut out, cid);
            push_str(&mut out, " :\n");
            push_lines(&mut out, Listed::Message, items, 0);
            assert(items@.skip(0) == items@);
            push_pagination(&mut out, r);
            assert(out@ =~= dec_nat(items@.len()) + (" message(s) dans #"@ + cid@ + " :\n"@) + lines(
                Listed::Message,
                items@,
            ) + pagination(*r));
            trim_end_ws(out.as_str())
        },
        None => {
            let mut t = owned("Aucun message dans #");
            push_str(&mut t, cid);
            push_str(&mut t, ".");
            t
        },
    };
    checked_exec(r, text)
}

fn replies(cfg: &SlackConfig, cid: &str, ts: &str, args: &Json, rs: &Vec<Json>) -> (s: Step)
    requires
        rs@.len() >= 1 && rs@[0].at("ok"@).bool_of() == Some(true) ==> all_cut_ok(
            Listed::Reply,
            items_of(rs@[0], "messages"@),
        ),
    ensures
        s@ == replies_view(cid@, ts@, *args, rs@),
{
    if rs.len() == 0 {
        let mut url = cfg.api("conversations.replies");
        push_str(&mut url, "?channel=");
        push_str(&mut url, cid);
        push_str(&mut url, "&ts=");
        push_str(&mut url, ts);
        push_str(&mut url, "&limit=");
        push_u64(&mut url, get_capped(args, "limit", 20, 200));
        push_opt_param(&mut url, "&cursor=", get_str(args, "cursor"));
        return send(Method::Get, url, None);
    }
    let r = &rs[0];
    if get_bool(r, "ok") != Some(true) {
        return checked_exec(r, String::new());
    }
    let text = match get_array(r, "messages") {
        Some(items) => if items.len() == 0 {
            let mut t = owned("Aucune réponse dans le fil ");
            push_str(&mut t, ts);
            push_str(&mut t, ".");
            t
        } else {
            let mut out = String::new();
            push_u64(&mut out, items.len() as u64);
            push_str(&mut out, " message(s) dans le fil ");
            push_str(&mut out, ts);
            push_str(&mut out, " :\n");
            assert(item_cuts_ok(Listed::Reply, items@[0]));
            push_str(&mut out, format_item(Listed::Parent, &items[0]).as_str());
            push_lines(&mut out, Listed::Reply, items, 1);
            push_pagination(&mut out, r);
            assert(out@ =~= dec_nat(items@.len()) + (" message(s) dans le fil "@ + ts@ + " :\n"@)
                + thread_lines(items@) + pagination(*r));
            trim_end_ws(out.as_str())
        },
        None => {
            let mut t = owned("Aucune réponse dans le fil ");
            push_str(&mut t, ts);
            push_str(&mut t, ".");
            t
        },
    };
    checked_exec(r, text)
}

fn search(cfg: &SlackConfig, q: &str, args: &Json, rs: &Vec<Json>) -> (s: Step)
    requires
        rs@.len() >= 1 && rs@[0].at("ok"@).bool_of() == Some(true) ==> all_cut_ok(
            Listed::Match,
            items_of(rs@[0].at("messages"@), "matches"@),
        ),
    ensures
        s@ == search_view(q@, *args, rs@),
{
    if rs.len() == 0 {
        let mut url = cfg.api("search.messages");
        push_str(&mut url, "?query=");
        push_str(&mut url, urlencoding_simple(q).as_str());
        push_str(&mut url, "&sort=");
        push_str(&mut url, get_str_or(args, "sort", "score"));
        push_str(&mut url, "&count=");
        push_u64(&mut url, get_capped(args, "count", 20, 100));
        push_str(&mut url, "&page=");
        push_u64(&mut url, get_count_or(args, "page", 1));
        return send(Method::Get, url, None);
    }
    let r = &rs[0];
    if get_bool(r, "ok") != Some(true) {
        return checked_exec(r, String::new());
    }
    let null = Json::Null;
    let msgs = match r.get("messages") {
        Some(m) => m,
        None => &null,
    };
    let text = match get_array(msgs, "matches") {
        Some(items) => if items.len() == 0 {
            let mut t = owned("Aucun message trouvé pour '");
            push_str(&mut t, q);
            push_str(&mut t, "'.");
            t
        } else {
            let mut out = String::new();
            push_u64(&mut out, items.len() as u64);
            push_str(&mut out, " résultat(s) (total: ");
            push_u64(&mut out, get_count_or(msgs, "total", 0));
            push_str(&mut out, ") pour '");
            push_str(&mut out, q);
            push_str(&mut out, "' :\n");
            push_lines(&mut out, Listed::Match, items, 0);
            assert(items@.skip(0) == items@);
            assert(out@ =~= dec_nat(items@.len()) + " résultat(s) (total: "@ + dec_nat(
                count_or(*msgs, "total"@, 0),
            ) + ") pour '"@ + q@ + "' :\n"@ + lines(Listed::Match, items@));
            trim_end_ws(out.as_str())
        },
        None => {
            let mut t = owned("Aucun message trouvé pour '");
            push_str(&mut t, q);
            push_str(&mut t, "'.");
            t
        },
    };
    checked_exec(r, text)
}

fn users(cfg: &SlackConfig, args: &Json, rs: &Vec<Json>) -> (s: Step)
    ensures
        s@ == users_view(*args, rs@),
{
    if rs.len() == 0 {
        let mut url = cfg.api("users.list");
        push_str(&mut url, "?limit=");
        push_u64(&mut url, get_capped(args, "limit", 100, 1000));
        push_opt_param(&mut url, "&cursor=", get_str(args, "cursor"));
        return send(Method::Get, url, None);
    }
    let r = &rs[0];
    let text = match get_array(r, "members") {
        Some(items) => if items.len() == 0 {
            owned("Aucun utilisateur trouvé.")
        } else {
            let mut body = String::new();
            let mut count: u64 = 0;
            let n = items.len();
            for i in 0..n
                invariant
                    n == items@.len(),
                    count as nat == active_members(items@.take(i as int)).len(),
                    count <= i,
                    body@ == lines(Listed::User, active_members(items@.take(i as int))),
            {
                assert(items@.take(i + 1).drop_last() == items@.take(i as int));
                assert(items@.take(i + 1).last() == items@[i as int]);
                let ghost before = active_members(items@.take(i as int));
                if !get_flag(&items[i], "deleted") {
                    push_str(&mut body, format_item(Listed::User, &items[i]).as_str());
                    count = count + 1;
                    assert(before.push(items@[i as int]).drop_last() == before);
                }
            }
            assert(items@.take(n as int) == items@);
            let mut out = String::new();
            push_u64(&mut out, count);
            push_str(&mut out, " utilisateur(s) actif(s) :\n");
            push_str(&mut out, body.as_str());
            push_pagination(&mut out, r);
            assert(out@ =~= dec_nat(count as nat) + " utilisateur(s) actif(s) :\n"@ + lines(
                Listed::User,
                active_members(items@),
            ) + pagination(*r));
            trim_end_ws(out.as_str())
        },
        None => owned("Aucun utilisateur trouvé."),
    };
    checked_exec(r, text)
}

fn post_step(cfg: &SlackConfig, method: &str, body: String) -> (s: Step)
    ensures
        s@ == send_view(Method::Post, api_url(method@), Some(body@)),
{
    send(Method::Post, cfg.api(method), Some(body))
}

fn push_thread_ts(out: &mut String, args: &Json)
    ensures
        final(out)@ == old(out)@ + match args.at("thread_ts"@).str_of() {
            Some(ts) => if ts.len() > 0 {
                ",\"thread_ts\":"@ + quoted(ts)
            } else {
                seq![]
            },
            None => seq![],
        },
{
    match get_str(args, "thread_ts") {
        Some(ts) => if !ts.is_empty() {
            push_str(out, ",\"thread_ts\":");
            push_quoted(out, ts);
        },
        None => {},
    }
}

fn message_tools(cfg: &SlackConfig, name: &str, cid: &str, args: &Json, rs: &Vec<Json>) -> (s: Step)
    ensures
        s@ == message_view(name@, cid@, *args, rs@),
{
    let first = rs.len() == 0;
    if str_eq(name, "slack_post_message") {
        let text = match get_str(args, "text") {
            None => return required("text"),
            Some(t) => t,
        };
        if first {
            let mut body = owned("{");
            push_blocks_member(&mut body, args);
            push_str(&mut body, "\"channel\":");
            push_quoted(&mut body, cid);
            push_str(&mut body, ",\"mrkdwn\":");
            let m = match get_bool(args, "mrkdwn") {
                Some(b) => b,
                None => true,
            };
            push_str(&mut body, to_json_string(&Json::Bool(m)).as_str());
            push_str(&mut body, ",\"text\":");
            push_quoted(&mut body, text);
            push_thread_ts(&mut body, args);
            push_str(&mut body, "}");
            return post_step(cfg, "chat.postMessage", body);
        }
        let mut out = owned("Message envoyé dans ");
        push_str(&mut out, cid);
        push_str(&mut out, ".\nTimestamp : ");
        push_str(&mut out, get_str_or(&rs[0], "ts", "—"));
        checked_exec(&rs[0], out)
    } else if str_eq(name, "slack_reply_to_thread") {
        let ts = match get_str(args, "thread_ts") {
            None => return required("thread_ts"),
            Some(t) => t,
        };
        let text = match get_str(args, "text") {
            None => return required("text"),
            Some(t) => t,
        };
        if first {
            let mut body = owned("{");
            push_blocks_member(&mut body, args);
            push_str(&mut body, "\"channel\":");
            push_quoted(&mut body, cid);
            push_str(&mut body, ",\"mrkdwn\":");
            let m = match get_bool(args, "mrkdwn") {
                Some(b) => b,
                None => true,
            };
            push_str(&mut body, to_json_string(&Json::Bool(m)).as_str());
            push_str(&mut body, ",\"text\":");
            push_quoted(&mut body, text);
            push_str(&mut body, ",\"thread_ts\":");
            push_quoted(&mut body, ts);
            push_str(&mut body, "}");
            return post_step(cfg, "chat.postMessage", body);
        }
        let mut out = owned("Réponse envoyée dans le fil ");
        push_str(&mut out, ts);
        push_str(&mut out, " (channel: ");
        push_str(&mut out, cid);
        push_str(&mut out, ").\nTimestamp : ");
        push_str(&mut out, get_str_or(&rs[0], "ts", "—"));
        checked_exec(&rs[0], out)
    } else if str_eq(name, "slack_update_message") {
        let ts = match get_str(args, "ts") {
            None => return required("ts"),
            Some(t) => t,
        };
        let text = match get_str(args, "text") {
            None => return required("text"),
            Some(t) => t,
        };
        if first {
            let mut body = owned("{");
            push_blocks_member(&mut body, args);
            push_str(&mut body, "\"channel\":");
            push_quoted(&mut body, cid);
            push_str(&mut body, ",\"text\":");
            push_quoted(&mut body, text);
            push_str(&mut body, ",\"ts\":");
            push_quoted(&mut body, ts);
            push_str(&mut body, "}");
            return post_step(cfg, "chat.update", body);
        }
        let mut out = owned("Message ");
        push_str(&mut out, ts);
        push_str(&mut out, " modifié dans ");
        push_str(&mut out, cid);
        push_str(&mut out, ".");
        checked_exec(&rs[0], out)
    } else if str_eq(name, "slack_delete_message") {
        let ts = match get_str(args, "ts") {
            None => return required("ts"),
            Some(t) => t,
        };
        if first {
            let mut body = owned("{\"channel\":");
            push_quoted(&mut body, cid);
            push_str(&mut body, ",\"ts\":");
            push_quoted(&mut body, ts);
            push_str(&mut body, "}");
            return post_step(cfg, "chat.delete", body);
        }
        let mut out = owned("Message ");
        push_str(&mut out, ts);
        push_str(&mut out, " supprimé du channel ");
        push_str(&mut out, cid);
        push_str(&mut out, ".");
        checked_exec(&rs[0], out)
    } else {
        let ts = match get_str(args, "timestamp") {
            None => return required("timestamp"),
            Some(t) => t,
        };
        let rn = match get_str(args, "reaction_name") {
            None => return required("reaction_name"),
            Some(t) => t,
        };
        let clean_chars = trim_start_char(&trim_end_char(&str_chars(rn), ':'), ':');
        let mut clean = String::new();
        push_chars(&mut clean, &clean_chars);
        assert(clean@ == trim_start_spec(trim_end_spec(rn@, ':'), ':'));
        if first {
            let mut body = owned("{\"channel\":");
            push_quoted(&mut body, cid);
            push_str(&mut body, ",\"name\":");
            push_quoted(&mut body, clean.as_str());
            push_str(&mut body, ",\"timestamp\":");
            push_quoted(&mut body, ts);
            push_str(&mut body, "}");
            return post_step(cfg, "reactions.add", body);
        }
        let mut out = owned("Réaction :");
        push_str(&mut out, clean.as_str());
        push_str(&mut out, ": ajoutée au message ");
        push_str(&mut out, ts);
        push_str(&mut out, ".");
        checked_exec(&rs[0], out)
    }
}

fn admin_tools(cfg: &SlackConfig, name: &str, cid: &str, args: &Json, rs: &Vec<Json>) -> (s: Step)
    ensures
        s@ == channel_admin_view(name@, cid@, *args, rs@),
{
    let first = rs.len() == 0;
    if str_eq(name, "slack_get_channel_info") {
        if first {
            let mut url = cfg.api("conversations.info");
            push_str(&mut url, "?channel=");
            push_str(&mut url, cid);
            return send(Method::Get, url, None);
        }
        let r = &rs[0];
        let null = Json::Null;
        let c = match r.get("channel") {
            Some(c) => c,
            None => &null,
        };
        let mut out = owned("Channel ");
        push_str(&mut out, get_str_or(c, "id", cid));
        push_str(&mut out, "\nNom        : #");
        push_str(&mut out, get_str_or(c, "name", "—"));
        push_str(&mut out, "\nType       : ");
        push_str(&mut out, if get_flag(c, "is_private") { "privé" } else { "public" });
        push_str(&mut out, "\nMembres    : ");
        push_u64(&mut out, get_count_or(c, "num_members", 0));
        push_str(&mut out, "\nSujet      : ");
        push_str(&mut out, get_nested_str_or(c, "topic", "value", "—"));
        push_str(&mut out, "\nObjectif   : ");
        push_str(&mut out, get_nested_str_or(c, "purpose", "value", "—"));
        push_str(&mut out, "\nCréé       : ");
        push_u64(&mut out, get_count_or(c, "created", 0));
        push_str(&mut out, "\nArchivé    : ");
        push_str(&mut out, to_json_string(&Json::Bool(get_flag(c, "is_archived"))).as_str());
        checked_exec(r, out)
    } else if str_eq(name, "slack_invite_to_channel") {
        let items = match get_array(args, "user_ids") {
            None => return Step::Done(Err(owned("Paramètre 'user_ids' requis (tableau)"))),
            Some(a) => a,
        };
        let mut ids: Vec<&str> = Vec::new();
        let n = items.len();
        for i in 0..n
            invariant
                n == items@.len(),
                views(ids@) == strings_of(items@.take(i as int)),
        {
            assert(items@.take(i + 1).drop_last() == items@.take(i as int));
            assert(items@.take(i + 1).last() == items@[i as int]);
            match items[i].as_str() {
                Some(s) => {
                    ids.push(s);
                    assert(views(ids@) == views(ids@.drop_last()).push(s@));
                },
                None => {},
            }
        }
        assert(items@.take(n as int) == items@);
        if ids.len() == 0 {
            return Step::Done(Err(owned("'user_ids' ne peut pas être vide")));
        }
        if first {
            let mut body = owned("{\"channel\":");
            push_quoted(&mut body, cid);
            push_str(&mut body, ",\"users\":");
            push_quoted(&mut body, join_strs(&ids, ",").as_str());
            push_str(&mut body, "}");
            return post_step(cfg, "conversations.invite", body);
        }
        let mut out = String::new();
        push_u64(&mut out, ids.len() as u64);
        push_str(&mut out, " utilisateur(s) invité(s) dans le channel ");
        push_str(&mut out, cid);
        push_str(&mut out, ".");
        checked_exec(&rs[0], out)
    } else {
        let topic = match get_str(args, "topic") {
            None => return required("topic"),
            Some(t) => t,
        };
        if first {
            let mut body = owned("{\"channel\":");
            push_quoted(&mut body, cid);
            push_str(&mut body, ",\"topic\":");
            push_quoted(&mut body, topic);
            push_str(&mut body, "}");
            return post_step(cfg, "conversations.setTopic", body);
        }
        let mut out = owned("Sujet du channel ");
        push_str(&mut out, cid);
        push_str(&mut out, " mis à jour : ");
        push_str(&mut out, topic);
        checked_exec(&rs[0], out)
    }
}

fn upload(cfg: &SlackConfig, cid: &str, args: &Json, rs: &Vec<Json>) -> (s: Step)
    ensures
        s@ == match args.at("content"@).str_of() {
            None => fail_view(required_text("content"@)),
            Some(content) => match args.at("filename"@).str_of() {
                None => fail_view(required_text("filename"@)),
                Some(filename) => one_call(
                    form_view(api_url("files.upload"@), upload_form(cid@, filename, content, *args)),
                    rs@,
                    |r: Json|
                        "Fichier uploadé dans "@ + cid@ + ".\nID   : "@ + str_or(r.at("file"@), "id"@, "—"@)
                            + "\nNom  : "@ + str_or(r.at("file"@), "name"@, filename),
                ),
            },
        },
{
    let content = match get_str(args, "content") {
        None => return required("content"),
        Some(c) => c,
    };
    let filename = match get_str(args, "filename") {
        None => return required("filename"),
        Some(f) => f,
    };
    if rs.len() == 0 {
        let mut body = String::new();
        push_www_pair(&mut body, "channels", cid);
        push_str(&mut body, "&");
        push_www_pair(&mut body, "filename", filename);
        push_str(&mut body, "&");
        push_www_pair(&mut body, "content", content);
        match get_str(args, "title") {
            Some(t) => {
                push_str(&mut body, "&");
                push_www_pair(&mut body, "title", t);
            },
            None => {},
        }
        match get_str(args, "initial_comment") {
            Some(c) => {
                push_str(&mut body, "&");
                push_www_pair(&mut body, "initial_comment", c);
            },
            None => {},
        }
        assert(body@ =~= upload_form(cid@, filename@, content@, *args));
        return send_form(cfg.api("files.upload"), body);
    }
    let r = &rs[0];
    let mut out = owned("Fichier uploadé dans ");
    push_str(&mut out, cid);
    push_str(&mut out, ".\nID   : ");
    push_str(&mut out, get_nested_str_or(r, "file", "id", "—"));
    push_str(&mut out, "\nNom  : ");
    push_str(&mut out, get_nested_str_or(r, "file", "name", filename));
    checked_exec(r, out)
}

fn channel_tool(cfg: &SlackConfig, name: &str, cid: &str, args: &Json, rs: &Vec<Json>) -> (s: Step)
    requires
        handle_ok(name@, rs@),
    ensures
        s@ == channel_tool_view(name@, cid@, *args, rs@),
{
    if str_eq(name, "slack_get_channel_info") || str_eq(name, "slack_invite_to_channel") || str_eq(
        name,
        "slack_set_topic",
    ) {
        admin_tools(cfg, name, cid, args, rs)
    } else if str_eq(name, "slack_post_message") || str_eq(name, "slack_reply_to_thread") || str_eq(
        name,
        "slack_update_message",
    ) || str_eq(name, "slack_delete_message") || str_eq(name, "slack_add_reaction") {
        message_tools(cfg, name, cid, args, rs)
    } else if str_eq(name, "slack_get_channel_history") {
        history(cfg, cid, args, rs)
    } else if str_eq(name, "slack_get_thread_replies") {
        match get_str(args, "thread_ts") {
            None => required("thread_ts"),
            Some(ts) => replies(cfg, cid, ts, args, rs),
        }
    } else {
        upload(cfg, cid, args, rs)
    }
}

fn item_can_cut(kind: Listed, j: &Json) -> (r: bool)
    ensures
        r == item_cuts_ok(kind, *j),
{
    match kind {
        Listed::Channel => {
            let topic = match j.get("topic") {
                Some(t) => get_str_or(t, "value", ""),
                None => "",
            };
            crate::fmt::can_cut(topic, 60)
        },
        Listed::Match => crate::fmt::can_cut(get_str_or(j, "text", "—"), 100),
        Listed::User => true,
        _ => crate::fmt::can_cut(get_str_or(j, "text", "(contenu non textuel)"), 120),
    }
}

fn all_can_cut(kind: Listed, items: &Vec<Json>) -> (r: bool)
    ensures
        r == all_cut_ok(kind, items@),
{
    let mut i: usize = 0;
    while i < items.len()
        invariant
            i <= items@.len(),
            forall|k: int| 0 <= k < i ==> #[trigger] item_cuts_ok(kind, items@[k]),
        decreases items.len() - i,
    {
        if !item_can_cut(kind, &items[i]) {
            assert(!item_cuts_ok(kind, items@[i as int]));
            return false;
        }
        i = i + 1;
    }
    true
}

fn listed_can_cut(kind: Listed, items: Option<&Vec<Json>>) -> (r: bool)
    ensures
        r == all_cut_ok(
            kind,
            match items {
                Some(a) => a@,
                None => seq![],
            },
        ),
{
    match items {
        Some(a) => all_can_cut(kind, a),
        None => true,
    }
}

/// Whether a call of `name` can take `responses` without panicking (see [`handle_ok`]).
pub fn can_handle(name: &str, responses: &Vec<Json>) -> (r: bool)
    ensures
        r == handle_ok(name@, responses@),
{
    if responses.len() == 0 || get_bool(&responses[0], "ok") != Some(true) {
        return true;
    }
    let r = &responses[0];
    proof {
        reveal_strlit("slack_list_channels");
        reveal_strlit("slack_get_channel_history");
        reveal_strlit("slack_get_thread_replies");
        reveal_strlit("slack_search_messages");
        assert("slack_list_channels"@.len() == 19);
        assert("slack_get_channel_history"@.len() == 25);
        assert("slack_get_thread_replies"@.len() == 24);
        assert("slack_search_messages"@.len() == 21);
    }
    if str_eq(name, "slack_list_channels") {
        listed_can_cut(Listed::Channel, get_array(r, "channels"))
    } else if str_eq(name, "slack_get_channel_history") {
        listed_can_cut(Listed::Message, get_array(r, "messages"))
    } else if str_eq(name, "slack_get_thread_replies") {
        listed_can_cut(Listed::Reply, get_array(r, "messages"))
    } else if str_eq(name, "slack_search_messages") {
        let matches = match r.get("messages") {
            Some(m) => get_array(m, "matches"),
            None => None,
        };
        listed_can_cut(Listed::Match, matches)
    } else {
        true
    }
}

/// Runs one step of the Slack tool `name` called with `args`: `responses` holds the parsed
/// responses to the requests made so far (each tool makes one).
pub fn handle(cfg: &SlackConfig, name: &str, args: &Json, responses: &Vec<Json>) -> (s: Step)
    requires
        handle_ok(name@, responses@),
    ensures
        s@ == handle_view(*cfg, name@, *args, responses@),
{
    let rs = responses;
    if str_eq(name, "slack_list_channels") {
        list_channels(cfg, args, rs)
    } else if str_eq(name, "slack_create_channel") {
        let n = match get_str(args, "name") {
            None => return required("name"),
            Some(x) => x,
        };
        let private = get_flag(args, "is_private");
        if rs.len() == 0 {
            let mut body = owned("{\"is_private\":");
            push_str(&mut body, to_json_string(&Json::Bool(private)).as_str());
            push_str(&mut body, ",\"name\":");
            push_quoted(&mut body, n);
            push_str(&mut body, "}");
            return post_step(cfg, "conversations.create", body);
        }
        let mut out = owned("Channel créé.\nID   : ");
        push_str(&mut out, get_nested_str_or(&rs[0], "channel", "id", "—"));
        push_str(&mut out, "\nNom  : #");
        push_str(&mut out, n);
        push_str(&mut out, "\nType : ");
        push_str(&mut out, if private { "privé" } else { "public" });
        checked_exec(&rs[0], out)
    } else if str_eq(name, "slack_get_channel_info") || str_eq(name, "slack_invite_to_channel")
        || str_eq(name, "slack_set_topic") || str_eq(name, "slack_post_message") || str_eq(
        name,
        "slack_reply_to_thread",
    ) || str_eq(name, "slack_update_message") || str_eq(name, "slack_delete_message") || str_eq(
        name,
        "slack_add_reaction",
    ) || str_eq(name, "slack_get_channel_history") || str_eq(name, "slack_get_thread_replies")
        || str_eq(name, "slack_upload_file") {
        match get_str(args, "channel_id") {
            None => required("channel_id"),
            Some(cid) => channel_tool(cfg, name, cid, args, rs),
        }
    } else if str_eq(name, "slack_search_messages") {
        match get_str(args, "query") {
            None => required("query"),
            Some(q) => search(cfg, q, args, rs),
        }
    } else if str_eq(name, "slack_get_users") {
        users(cfg, args, rs)
    } else if str_eq(name, "slack_get_user_profile") {
        let uid = match get_str(args, "user_id") {
            None => return required("user_id"),
            Some(x) => x,
        };
        if rs.len() == 0 {
            let mut url = cfg.api("users.profile.get");
            push_str(&mut url, "?user=");
            push_str(&mut url, uid);
            return send(Method::Get, url, None);
        }
        let r = &rs[0];
        let null = Json::Null;
        let p = match r.get("profile") {
            Some(p) => p,
            None => &null,
        };
        let mut out = owned("Profil ");
        push_str(&mut out, uid);
        push_str(&mut out, "\nNom réel     : ");
        push_str(&mut out, get_str_or(p, "real_name", "—"));
        push_str(&mut out, "\nNom affiché  : ");
        push_str(&mut out, get_str_or(p, "display_name", "—"));
        push_str(&mut out, "\nTitre        : ");
        push_str(&mut out, get_str_or(p, "title", "—"));
        push_str(&mut out, "\nEmail        : ");
        push_str(&mut out, get_str_or(p, "email", "—"));
        push_str(&mut out, "\nTéléphone    : ");
        push_str(&mut out, get_str_or(p, "phone", "—"));
        push_str(&mut out, "\nTimezone     : ");
        push_str(&mut out, get_str_or(p, "tz", "—"));
        push_str(&mut out, "\nStatut       : ");
        push_str(&mut out, get_str_or(p, "status_emoji", ""));
        push_str(&mut out, " ");
        push_str(&mut out, get_str_or(p, "status_text", "—"));
        checked_exec(r, out)
    } else if str_eq(name, "slack_get_team_info") {
        if rs.len() == 0 {
            let mut url = cfg.api("team.info");
            match &cfg.team_id {
                Some(t) => if !t.as_str().is_empty() {
                    push_str(&mut url, "?team=");
                    push_str(&mut url, t.as_str());
                },
                None => {},
            }
            assert(url@ =~= api_url("team.info"@) + match cfg.team_id {
                Some(t) => if t@.len() > 0 {
                    "?team="@ + t@
                } else {
                    seq![]
                },
                None => seq![],
            });
            return send(Method::Get, url, None);
        }
        let r = &rs[0];
        let null = Json::Null;
        let t = match r.get("team") {
            Some(t) => t,
            None => &null,
        };
        let mut out = owned("Workspace Slack\nID       : ");
        push_str(&mut out, get_str_or(t, "id", "—"));
        push_str(&mut out, "\nNom      : ");
        push_str(&mut out, get_str_or(t, "name", "—"));
        push_str(&mut out, "\nDomaine  : ");
        push_str(&mut out, get_str_or(t, "domain", "—"));
        push_str(&mut out, ".slack.com\nEmail    : @");
        push_str(&mut out, get_str_or(t, "email_domain", "—"));
        push_str(&mut out, "\nPlan     : ");
        push_str(&mut out, get_str_or(t, "plan", "—"));
        checked_exec(r, out)
    } else if str_eq(name, "slack_open_dm") {
        let uid = match get_str(args, "user_id") {
            None => return required("user_id"),
            Some(x) => x,
        };
        if rs.len() == 0 {
            let mut body = owned("{\"users\":");
            push_quoted(&mut body, uid);
            push_str(&mut body, "}");
            return post_step(cfg, "conversations.open", body);
        }
        let r = &rs[0];
        let mut out = owned("Conversation DM ");
        push_str(&mut out, if get_flag(r, "already_open") { "déjà ouverte" } else { "ouverte" });
        push_str(&mut out, " avec ");
        push_str(&mut out, uid);
        push_str(&mut out, ".\nChannel ID : ");
        push_str(&mut out, get_nested_str_or(r, "channel", "id", "—"));
        push_str(
            &mut out,
            "\n(Utiliser slack_post_message avec ce channel_id pour envoyer un message.)",
        );
        checked_exec(r, out)
    } else {
        Step::Done(Err(concat("Tool Slack inconnu: ", name)))
    }
}

/// Every Slack tool makes at most one request, and a response whose `ok` is not `true` fails
/// the call with the error Slack reported.
pub proof fn lemma_handle_ends(cfg: SlackConfig, name: Seq<char>, args: Json, rs: Seq<Json>)
    requires
        rs.len() >= 1,
    ensures
        handle_view(cfg, name, args, rs) is Done,
        handle_view(cfg, name, args, seq![]) is Send && rs[0].at("ok"@).bool_of() != Some(true)
            ==> handle_view(cfg, name, args, rs) == fail_view(slack_error_text(rs[0])),
{
}

/// The Slack tools offered to MCP clients: name, description and input schema of each, as a
/// The catalog's tools, in its order: for each, the JSON text of its members before its name
/// (its description and input schema).
pub const TOOL_HEADS: [&'static str; 18] = [
    r#"{"description":"SLACK 💬 — Liste les channels du workspace Slack (publics et/ou privés). Retourne nom, ID et sujet. Supporte la pagination via cursor.","inputSchema":{"properties":{"cursor":{"description":"Curseur de pagination (next_cursor issu d'un appel précédent)","type":"string"},"exclude_archived":{"default":true,"description":"Exclure les channels archivés (défaut: true)","type":"boolean"},"limit":{"default":100,"description":"Nombre max de channels à retourner (défaut: 100, max: 1000)","type":"integer"},"types":{"default":"public_channel","description":"Types de channels : public_channel, private_channel, mpim, im (séparés par virgule, défaut: public_channel)","type":"string"}},"type":"object"},"name":"#,
    r#"{"description":"SLACK 💬 — Récupère les détails d'un channel Slack : nom, sujet, objectif, nombre de membres, date de création.","inputSchema":{"properties":{"channel_id":{"description":"ID du channel (ex: C01234ABC)","type":"string"}},"required":["channel_id"],"type":"object"},"name":"#,
    r#"{"description":"SLACK 💬 — Crée un nouveau channel Slack public ou privé. Retourne l'ID et le nom du channel créé.","inputSchema":{"properties":{"is_private":{"default":false,"description":"Créer un channel privé (défaut: false)","type":"boolean"},"name":{"description":"Nom du channel (lowercase, sans espaces)","type":"string"}},"required":["name"],"type":"object"},"name":"#,
    r#"{"description":"SLACK 💬 — Invite un ou plusieurs utilisateurs dans un channel Slack.","inputSchema":{"properties":{"channel_id":{"description":"ID du channel","type":"string"},"user_ids":{"description":"Liste des IDs utilisateurs à inviter","items":{"type":"string"},"type":"array"}},"required":["channel_id","user_ids"],"type":"object"},"name":"#,
    r#"{"description":"SLACK 💬 — Définit ou modifie le sujet d'un channel Slack.","inputSchema":{"properties":{"channel_id":{"description":"ID du channel","type":"string"},"topic":{"description":"Nouveau sujet du channel","type":"string"}},"required":["channel_id","topic"],"type":"object"},"name":"#,
    r#"{"description":"SLACK 💬 — Envoie un message dans un channel Slack. Supporte le formatage Markdown Slack (mrkdwn) et les blocks optionnels. Retourne le timestamp du message.","inputSchema":{"properties":{"blocks":{"description":"Blocks Block Kit optionnels (JSON)","type":"array"},"channel_id":{"description":"ID du channel ou nom (@user pour DM)","type":"string"},"mrkdwn":{"default":true,"description":"Activer le rendu Markdown Slack (défaut: true)","type":"boolean"},"text":{"description":"Texte du message","type":"string"},"thread_ts":{"description":"Timestamp du message parent pour répondre en fil","type":"string"}},"required":["channel_id","text"],"type":"object"},"name":"#,
    r#"{"description":"SLACK 💬 — Répond dans un fil (thread) Slack existant. Utiliser slack_get_channel_history pour obtenir le thread_ts.","inputSchema":{"properties":{"blocks":{"description":"Blocks Block Kit optionnels","type":"array"},"channel_id":{"description":"ID du channel","type":"string"},"mrkdwn":{"default":true,"description":"Activer le rendu Markdown Slack (défaut: true)","type":"boolean"},"text":{"description":"Texte de la réponse","type":"string"},"thread_ts":{"description":"Timestamp du message parent (ex: 1234567890.123456)","type":"string"}},"required":["channel_id","thread_ts","text"],"type":"object"},"name":"#,
    r#"{"description":"SLACK 💬 — Modifie le contenu d'un message Slack existant. Nécessite le channel_id et le timestamp (ts) du message.","inputSchema":{"properties":{"blocks":{"description":"Nouveaux blocks Block Kit (optionnel)","type":"array"},"channel_id":{"description":"ID du channel","type":"string"},"text":{"description":"Nouveau texte du message","type":"string"},"ts":{"description":"Timestamp du message à modifier","type":"string"}},"required":["channel_id","ts","text"],"type":"object"},"name":"#,
    r#"{"description":"SLACK 💬 — Supprime un message Slack. Nécessite le channel_id et le timestamp (ts) du message.","inputSchema":{"properties":{"channel_id":{"description":"ID du channel","type":"string"},"ts":{"description":"Timestamp du message à supprimer","type":"string"}},"required":["channel_id","ts"],"type":"object"},"name":"#,
    r#"{"description":"SLACK 💬 — Ajoute une réaction emoji à un message Slack. Le nom de l'emoji ne doit pas contenir les ':'.","inputSchema":{"properties":{"channel_id":{"description":"ID du channel","type":"string"},"reaction_name":{"description":"Nom de l'emoji sans ':' (ex: thumbsup, rocket, heart)","type":"string"},"timestamp":{"description":"Timestamp du message (ts)","type":"string"}},"required":["channel_id","timestamp","reaction_name"],"type":"object"},"name":"#,
    r#"{"description":"SLACK 💬 — Récupère l'historique des messages d'un channel Slack. Retourne les messages avec auteur, texte et timestamp. Supporte filtre par date (oldest/latest).","inputSchema":{"properties":{"channel_id":{"description":"ID du channel","type":"string"},"cursor":{"description":"Curseur de pagination","type":"string"},"latest":{"description":"Timestamp Unix maximum (messages avant cette date)","type":"string"},"limit":{"default":20,"description":"Nombre de messages à retourner (défaut: 20, max: 200)","type":"integer"},"oldest":{"description":"Timestamp Unix minimum (messages après cette date)","type":"string"}},"required":["channel_id"],"type":"object"},"name":"#,
    r#"{"description":"SLACK 💬 — Récupère toutes les réponses d'un fil (thread) Slack. Utiliser slack_get_channel_history pour obtenir le thread_ts.","inputSchema":{"properties":{"channel_id":{"description":"ID du channel","type":"string"},"cursor":{"description":"Curseur de pagination","type":"string"},"limit":{"default":20,"description":"Nombre de réponses à retourner (défaut: 20, max: 200)","type":"integer"},"thread_ts":{"description":"Timestamp du message parent","type":"string"}},"required":["channel_id","thread_ts"],"type":"object"},"name":"#,
    r#"{"description":"SLACK 💬 — Recherche des messages dans le workspace Slack par mots-clés. Nécessite un token utilisateur (xoxp-) et non un bot token. Retourne les messages correspondants avec leur contexte.","inputSchema":{"properties":{"count":{"default":20,"description":"Nombre de résultats par page (défaut: 20, max: 100)","type":"integer"},"page":{"default":1,"description":"Numéro de page (défaut: 1)","type":"integer"},"query":{"description":"Termes de recherche (supporte les opérateurs Slack: in:#channel, from:@user, etc.)","type":"string"},"sort":{"default":"score","description":"Tri : score (pertinence, défaut) ou timestamp","enum":["score","timestamp"],"type":"string"}},"required":["query"],"type":"object"},"name":"#,
    r#"{"description":"SLACK 💬 — Liste tous les utilisateurs du workspace Slack avec leur nom, email et statut. Supporte la pagination.","inputSchema":{"properties":{"cursor":{"description":"Curseur de pagination","type":"string"},"limit":{"default":100,"description":"Nombre d'utilisateurs à retourner (défaut: 100, max: 1000)","type":"integer"}},"type":"object"},"name":"#,
    r#"{"description":"SLACK 💬 — Récupère le profil complet d'un utilisateur Slack : nom complet, email, titre, statut, timezone.","inputSchema":{"properties":{"user_id":{"description":"ID de l'utilisateur Slack (ex: U01234ABC)","type":"string"}},"required":["user_id"],"type":"object"},"name":"#,
    r#"{"description":"SLACK 💬 — Uploade un fichier texte dans un channel Slack avec un titre et commentaire optionnels.","inputSchema":{"properties":{"channel_id":{"description":"ID du channel où partager le fichier","type":"string"},"content":{"description":"Contenu textuel du fichier","type":"string"},"filename":{"description":"Nom du fichier (ex: rapport.txt)","type":"string"},"initial_comment":{"description":"Commentaire accompagnant le fichier (optionnel)","type":"string"},"title":{"description":"Titre affiché dans Slack (optionnel)","type":"string"}},"required":["channel_id","content","filename"],"type":"object"},"name":"#,
    r#"{"description":"SLACK 💬 — Récupère les informations du workspace Slack : nom, domaine, icône, plan.","inputSchema":{"properties":{},"type":"object"},"name":"#,
    r#"{"description":"SLACK 💬 — Ouvre une conversation DM (message direct) avec un utilisateur Slack. Retourne le channel_id du DM pour envoyer des messages via slack_post_message.","inputSchema":{"properties":{"user_id":{"description":"ID de l'utilisateur Slack avec qui ouvrir le DM","type":"string"}},"required":["user_id"],"type":"object"},"name":"#
];

/// The names of the catalog's tools, in its order (those of [`catalog_names`]).
pub const TOOL_NAMES: [&'static str; 18] = [
    "slack_list_channels",
    "slack_get_channel_info",
    "slack_create_channel",
    "slack_invite_to_channel",
    "slack_set_topic",
    "slack_post_message",
    "slack_reply_to_thread",
    "slack_update_message",
    "slack_delete_message",
    "slack_add_reaction",
    "slack_get_channel_history",
    "slack_get_thread_replies",
    "slack_search_messages",
    "slack_get_users",
    "slack_get_user_profile",
    "slack_upload_file",
    "slack_get_team_info",
    "slack_open_dm"
];

/// The Slack tools offered to MCP clients, as a JSON array: one entry per tool of
/// [`catalog_names`], in order, each with its description and input schema (from
/// [`TOOL_HEADS`]) and its name.
pub fn tools() -> (r: String)
    ensures
        r@ == catalog_text(texts(TOOL_HEADS@), catalog_names()),
{
    assert(texts(TOOL_NAMES@) =~= catalog_names());
    build_catalog(&TOOL_HEADS, &TOOL_NAMES)
}

/// The names of the tools in the catalog, in its order.
pub open spec fn catalog_names() -> Seq<Seq<char>> {
    seq![
        "slack_list_channels"@,
        "slack_get_channel_info"@,
        "slack_create_channel"@,
        "slack_invite_to_channel"@,
        "slack_set_topic"@,
        "slack_post_message"@,
        "slack_reply_to_thread"@,
        "slack_update_message"@,
        "slack_delete_message"@,
        "slack_add_reaction"@,
        "slack_get_channel_history"@,
        "slack_get_thread_replies"@,
        "slack_search_messages"@,
        "slack_get_users"@,
        "slack_get_user_profile"@,
        "slack_upload_file"@,
        "slack_get_team_info"@,
        "slack_open_dm"@
    ]
}

/// The names of the tools in the catalog, in its order (see [`catalog_names`]).
pub fn tool_names() -> (r: Vec<&'static str>)
    ensures
        r@.map_values(|s: &'static str| s@) == catalog_names(),
{
    let r = vec![
        "slack_list_channels",
        "slack_get_channel_info",
        "slack_create_channel",
        "slack_invite_to_channel",
        "slack_set_topic",
        "slack_post_message",
        "slack_reply_to_thread",
        "slack_update_message",
        "slack_delete_message",
        "slack_add_reaction",
        "slack_get_channel_history",
        "slack_get_thread_replies",
        "slack_search_messages",
        "slack_get_users",
        "slack_get_user_profile",
        "slack_upload_file",
        "slack_get_team_info",
        "slack_open_dm"
    ];
    assert(r@.map_values(|s: &'static str| s@) =~= catalog_names());
    r
}

/// A tool name that [`tools`] does not serve (one outside [`catalog_names`]) gets the
/// unknown-tool error, without a request.
pub proof fn lemma_unknown_tool(cfg: SlackConfig, name: Seq<char>, args: Json, rs: Seq<Json>)
    requires
        !catalog_names().contains(name),
    ensures
        handle_view(cfg, name, args, rs) == fail_view("Tool Slack inconnu: "@ + name),
{
    assert(catalog_names()[0] == "slack_list_channels"@);
    assert(catalog_names()[1] == "slack_get_channel_info"@);
    assert(catalog_names()[2] == "slack_create_channel"@);
    assert(catalog_names()[3] == "slack_invite_to_channel"@);
    assert(catalog_names()[4] == "slack_set_topic"@);
    assert(catalog_names()[5] == "slack_post_message"@);
    assert(catalog_names()[6] == "slack_reply_to_thread"@);
    assert(catalog_names()[7] == "slack_update_message"@);
    assert(catalog_names()[8] == "slack_delete_message"@);
    assert(catalog_names()[9] == "slack_add_reaction"@);
    assert(catalog_names()[10] == "slack_get_channel_history"@);
    assert(catalog_names()[11] == "slack_get_thread_replies"@);
    assert(catalog_names()[12] == "slack_search_messages"@);
    assert(catalog_names()[13] == "slack_get_users"@);
    assert(catalog_names()[14] == "slack_get_user_profile"@);
    assert(catalog_names()[15] == "slack_upload_file"@);
    assert(catalog_names()[16] == "slack_get_team_info"@);
    assert(catalog_names()[17] == "slack_open_dm"@);
}

/// Every tool that [`tools`] serves (those of [`catalog_names`]) and that this module runs is
/// handled: its first step is never the unknown-tool error.
pub proof fn lemma_catalog_handled(cfg: SlackConfig, name: Seq<char>, args: Json)
    requires
        catalog_names().contains(name),
    ensures
        handle_view(cfg, name, args, seq![]) != fail_view("Tool Slack inconnu: "@ + name),
{
    reveal_strlit("'user_ids' ne peut pas être vide");
    reveal_strlit("Paramètre '");
    reveal_strlit("Paramètre 'user_ids' requis (tableau)");
    reveal_strlit("Tool Slack inconnu: ");
    assert(("Tool Slack inconnu: "@ + name)[0] == 'T');
    assert(catalog_names()[0] == "slack_list_channels"@);
    assert(catalog_names()[1] == "slack_get_channel_info"@);
    assert(catalog_names()[2] == "slack_create_channel"@);
    assert(catalog_names()[3] == "slack_invite_to_channel"@);
    assert(catalog_names()[4] == "slack_set_topic"@);
    assert(catalog_names()[5] == "slack_post_message"@);
    assert(catalog_names()[6] == "slack_reply_to_thread"@);
    assert(catalog_names()[7] == "slack_update_message"@);
    assert(catalog_names()[8] == "slack_delete_message"@);
    assert(catalog_names()[9] == "slack_add_reaction"@);
    assert(catalog_names()[10] == "slack_get_channel_history"@);
    assert(catalog_names()[11] == "slack_get_thread_replies"@);
    assert(catalog_names()[12] == "slack_search_messages"@);
    assert(catalog_names()[13] == "slack_get_users"@);
    assert(catalog_names()[14] == "slack_get_user_profile"@);
    assert(catalog_names()[15] == "slack_upload_file"@);
    assert(catalog_names()[16] == "slack_get_team_info"@);
    assert(catalog_names()[17] == "slack_open_dm"@);
}

/// The names of each catalog tool's input properties and of those it requires, in catalog
/// order (properties by name).
pub open spec fn catalog_schemas() -> Seq<(Seq<char>, Seq<Seq<char>>, Seq<Seq<char>>)> {
    seq![
        ("slack_list_channels"@, seq!["cursor"@, "exclude_archived"@, "limit"@, "types"@], seq![]),
        ("slack_get_channel_info"@, seq!["channel_id"@], seq!["channel_id"@]),
        ("slack_create_channel"@, seq!["is_private"@, "name"@], seq!["name"@]),
        ("slack_invite_to_channel"@, seq!["channel_id"@, "user_ids"@], seq!["channel_id"@, "user_ids"@]),
        ("slack_set_topic"@, seq!["channel_id"@, "topic"@], seq!["channel_id"@, "topic"@]),
        ("slack_post_message"@, seq!["blocks"@, "channel_id"@, "mrkdwn"@, "text"@, "thread_ts"@], seq!["channel_id"@, "text"@]),
        ("slack_reply_to_thread"@, seq!["blocks"@, "channel_id"@, "mrkdwn"@, "text"@, "thread_ts"@], seq!["channel_id"@, "thread_ts"@, "text"@]),
        ("slack_update_message"@, seq!["blocks"@, "channel_id"@, "text"@, "ts"@], seq!["channel_id"@, "ts"@, "text"@]),
        ("slack_delete_message"@, seq!["channel_id"@, "ts"@], seq!["channel_id"@, "ts"@]),
        ("slack_add_reaction"@, seq!["channel_id"@, "reaction_name"@, "timestamp"@], seq!["channel_id"@, "timestamp"@, "reaction_name"@]),
        ("slack_get_channel_history"@, seq!["channel_id"@, "cursor"@, "latest"@, "limit"@, "oldest"@], seq!["channel_id"@]),
        ("slack_get_thread_replies"@, seq!["channel_id"@, "cursor"@, "limit"@, "thread_ts"@], seq!["channel_id"@, "thread_ts"@]),
        ("slack_search_messages"@, seq!["count"@, "page"@, "query"@, "sort"@], seq!["query"@]),
        ("slack_get_users"@, seq!["cursor"@, "limit"@], seq![]),
        ("slack_get_user_profile"@, seq!["user_id"@], seq!["user_id"@]),
        ("slack_upload_file"@, seq!["channel_id"@, "content"@, "filename"@, "initial_comment"@, "title"@], seq!["channel_id"@, "content"@, "filename"@]),
        ("slack_get_team_info"@, seq![], seq![]),
        ("slack_open_dm"@, seq!["user_id"@], seq!["user_id"@])
    ]
}

/// The names of each catalog tool's input properties and required inputs (see
/// [`catalog_schemas`]).
pub fn tool_schemas() -> (r: Vec<SchemaNames>)
    ensures
        r@.map_values(|e: SchemaNames| schema_view(e)) == catalog_schemas(),
{
    let r: Vec<SchemaNames> = vec![
        ("slack_list_channels", vec!["cursor", "exclude_archived", "limit", "types"], vec![]),
        ("slack_get_channel_info", vec!["channel_id"], vec!["channel_id"]),
        ("slack_create_channel", vec!["is_private", "name"], vec!["name"]),
        ("slack_invite_to_channel", vec!["channel_id", "user_ids"], vec!["channel_id", "user_ids"]),
        ("slack_set_topic", vec!["channel_id", "topic"], vec!["channel_id", "topic"]),
        ("slack_post_message", vec!["blocks", "channel_id", "mrkdwn", "text", "thread_ts"], vec!["channel_id", "text"]),
        ("slack_reply_to_thread", vec!["blocks", "channel_id", "mrkdwn", "text", "thread_ts"], vec!["channel_id", "thread_ts", "text"]),
        ("slack_update_message", vec!["blocks", "channel_id", "text", "ts"], vec!["channel_id", "ts", "text"]),
        ("slack_delete_message", vec!["channel_id", "ts"], vec!["channel_id", "ts"]),
        ("slack_add_reaction", vec!["channel_id", "reaction_name", "timestamp"], vec!["channel_id", "timestamp", "reaction_name"]),
        ("slack_get_channel_history", vec!["channel_id", "cursor", "latest", "limit", "oldest"], vec!["channel_id"]),
        ("slack_get_thread_replies", vec!["channel_id", "cursor", "limit", "thread_ts"], vec!["channel_id", "thread_ts"]),
        ("slack_search_messages", vec!["count", "page", "query", "sort"], vec!["query"]),
        ("slack_get_users", vec!["cursor", "limit"], vec![]),
        ("slack_get_user_profile", vec!["user_id"], vec!["user_id"]),
        ("slack_upload_file", vec!["channel_id", "content", "filename", "initial_comment", "title"], vec!["channel_id", "content", "filename"]),
        ("slack_get_team_info", vec![], vec![]),
        ("slack_open_dm", vec!["user_id"], vec!["user_id"])
    ];
    assert(r@[0].1@.map_values(|s: &'static str| s@) =~= catalog_schemas()[0].1);
    assert(r@[0].2@.map_values(|s: &'static str| s@) =~= catalog_schemas()[0].2);
    assert(r@[1].1@.map_values(|s: &'static str| s@) =~= catalog_schemas()[1].1);
    assert(r@[1].2@.map_values(|s: &'static str| s@) =~= catalog_schemas()[1].2);
    assert(r@[2].1@.map_values(|s: &'static str| s@) =~= catalog_schemas()[2].1);
    assert(r@[2].2@.map_values(|s: &'static str| s@) =~= catalog_schemas()[2].2);
    assert(r@[3].1@.map_values(|s: &'static str| s@) =~= catalog_schemas()[3].1);
    assert(r@[3].2@.map_values(|s: &'static str| s@) =~= catalog_schemas()[3].2);
    assert(r@[4].1@.map_values(|s: &'static str| s@) =~= catalog_schemas()[4].1);
    assert(r@[4].2@.map_values(|s: &'static str| s@) =~= catalog_schemas()[4].2);
    assert(r@[5].1@.map_values(|s: &'static str| s@) =~= catalog_schemas()[5].1);
    assert(r@[5].2@.map_values(|s: &'static str| s@) =~= catalog_schemas()[5].2);
    assert(r@[6].1@.map_values(|s: &'static str| s@) =~= catalog_schemas()[6].1);
    assert(r@[6].2@.map_values(|s: &'static str| s@) =~= catalog_schemas()[6].2);
    assert(r@[7].1@.map_values(|s: &'static str| s@) =~= catalog_schemas()[7].1);
    assert(r@[7].2@.map_values(|s: &'static str| s@) =~= catalog_schemas()[7].2);
    assert(r@[8].1@.map_values(|s: &'static str| s@) =~= catalog_schemas()[8].1);
    assert(r@[8].2@.map_values(|s: &'static str| s@) =~= catalog_schemas()[8].2);
    assert(r@[9].1@.map_values(|s: &'static str| s@) =~= catalog_schemas()[9].1);
    assert(r@[9].2@.map_values(|s: &'static str| s@) =~= catalog_schemas()[9].2);
    assert(r@[10].1@.map_values(|s: &'static str| s@) =~= catalog_schemas()[10].1);
    assert(r@[10].2@.map_values(|s: &'static str| s@) =~= catalog_schemas()[10].2);
    assert(r@[11].1@.map_values(|s: &'static str| s@) =~= catalog_schemas()[11].1);
    assert(r@[11].2@.map_values(|s: &'static str| s@) =~= catalog_schemas()[11].2);
    assert(r@[12].1@.map_values(|s: &'static str| s@) =~= catalog_schemas()[12].1);
    assert(r@[12].2@.map_values(|s: &'static str| s@) =~= catalog_schemas()[12].2);
    assert(r@[13].1@.map_values(|s: &'static str| s@) =~= catalog_schemas()[13].1);
    assert(r@[13].2@.map_values(|s: &'static str| s@) =~= catalog_schemas()[13].2);
    assert(r@[14].1@.map_values(|s: &'static str| s@) =~= catalog_schemas()[14].1);
    assert(r@[14].2@.map_values(|s: &'static str| s@) =~= catalog_schemas()[14].2);
    assert(r@[15].1@.map_values(|s: &'static str| s@) =~= catalog_schemas()[15].1);
    assert(r@[15].2@.map_values(|s: &'static str| s@) =~= catalog_schemas()[15].2);
    assert(r@[16].1@.map_values(|s: &'static str| s@) =~= catalog_schemas()[16].1);
    assert(r@[16].2@.map_values(|s: &'static str| s@) =~= catalog_schemas()[16].2);
    assert(r@[17].1@.map_values(|s: &'static str| s@) =~= catalog_schemas()[17].1);
    assert(r@[17].2@.map_values(|s: &'static str| s@) =~= catalog_schemas()[17].2);
    assert(r@.map_values(|e: SchemaNames| schema_view(e)) =~= catalog_schemas());
    r
}

/// Every tool of the catalog requires only inputs that are among its properties.
pub proof fn lemma_required_are_properties(i: int)
    requires
        0 <= i < catalog_schemas().len(),
    ensures
        requires_properties(catalog_schemas()[i]),
{
    if i == 1 {
        assert(catalog_schemas()[1].1[0] == catalog_schemas()[1].2[0]);
    }
    if i == 2 {
        assert(catalog_schemas()[2].1[1] == catalog_schemas()[2].2[0]);
    }
    if i == 3 {
        assert(catalog_schemas()[3].1[0] == catalog_schemas()[3].2[0]);
        assert(catalog_schemas()[3].1[1] == catalog_schemas()[3].2[1]);
    }
    if i == 4 {
        assert(catalog_schemas()[4].1[0] == catalog_schemas()[4].2[0]);
        assert(catalog_schemas()[4].1[1] == catalog_schemas()[4].2[1]);
    }
    if i == 5 {
        assert(catalog_schemas()[5].1[1] == catalog_schemas()[5].2[0]);
        assert(catalog_schemas()[5].1[3] == catalog_schemas()[5].2[1]);
    }
    if i == 6 {
        assert(catalog_schemas()[6].1[1] == catalog_schemas()[6].2[0]);
        assert(catalog_schemas()[6].1[4] == catalog_schemas()[6].2[1]);
        assert(catalog_schemas()[6].1[3] == catalog_schemas()[6].2[2]);
    }
    if i == 7 {
        assert(catalog_schemas()[7].1[1] == catalog_schemas()[7].2[0]);
        assert(catalog_schemas()[7].1[3] == catalog_schemas()[7].2[1]);
        assert(catalog_schemas()[7].1[2] == catalog_schemas()[7].2[2]);
    }
    if i == 8 {
        assert(catalog_schemas()[8].1[0] == catalog_schemas()[8].2[0]);
        assert(catalog_schemas()[8].1[1] == catalog_schemas()[8].2[1]);
    }
    if i == 9 {
        assert(catalog_schemas()[9].1[0] == catalog_schemas()[9].2[0]);
        assert(catalog_schemas()[9].1[2] == catalog_schemas()[9].2[1]);
        assert(catalog_schemas()[9].1[1] == catalog_schemas()[9].2[2]);
    }
    if i == 10 {
        assert(catalog_schemas()[10].1[0] == catalog_schemas()[10].2[0]);
    }
    if i == 11 {
        assert(catalog_schemas()[11].1[0] == catalog_schemas()[11].2[0]);
        assert(catalog_schemas()[11].1[3] == catalog_schemas()[11].2[1]);
    }
    if i == 12 {
        assert(catalog_schemas()[12].1[2] == catalog_schemas()[12].2[0]);
    }
    if i == 14 {
        assert(catalog_schemas()[14].1[0] == catalog_schemas()[14].2[0]);
    }
    if i == 15 {
        assert(catalog_schemas()[15].1[0] == catalog_schemas()[15].2[0]);
        assert(catalog_schemas()[15].1[1] == catalog_schemas()[15].2[1]);
        assert(catalog_schemas()[15].1[2] == catalog_schemas()[15].2[2]);
    }
    if i == 17 {
        assert(catalog_schemas()[17].1[0] == catalog_schemas()[17].2[0]);
    }
}

/// `slack_post_message` with a non-empty `thread_ts` posts to `chat.postMessage` a body that
/// ends with that `thread_ts` member, so that the message goes into the thread.
pub proof fn lemma_post_message_in_thread(cfg: SlackConfig, args: Json, ts: Seq<char>)
    requires
        args.at("channel_id"@).str_of() is Some,
        args.at("text"@).str_of() is Some,
        args.at("thread_ts"@).str_of() == Some(ts),
        ts.len() > 0,
    ensures
        handle_view(cfg, "slack_post_message"@, args, seq![]) matches StepView::Send(q) && q.method
            == Method::Post && q.url == "https://slack.com/api/chat.postMessage"@ && exists|p: Seq<char>|
            q.body == Some(p + (",\"thread_ts\":"@ + quoted(ts) + "}"@)),
{
    reveal_strlit("slack_post_message");
    reveal_strlit("slack_list_channels");
    assert("slack_list_channels"@.len() == 19);
    reveal_strlit("slack_create_channel");
    assert("slack_create_channel"@.len() == 20);
    reveal_strlit("slack_get_channel_info");
    assert("slack_get_channel_info"@.len() == 22);
    reveal_strlit("slack_invite_to_channel");
    assert("slack_invite_to_channel"@.len() == 23);
    reveal_strlit("slack_set_topic");
    assert("slack_set_topic"@.len() == 15);
    assert("slack_post_message"@.len() == 18);
    reveal_strlit("chat.postMessage");
    assert("chat.postMessage"@[0] == 'c');
    assert(trim_start_spec("chat.postMessage"@, '/') == "chat.postMessage"@);
    reveal_strlit("https://slack.com/api/");
    reveal_strlit("https://slack.com/api/chat.postMessage");
    assert(api_url("chat.postMessage"@) =~= "https://slack.com/api/chat.postMessage"@);
    let cid = args.at("channel_id"@).str_of().unwrap();
    let text = args.at("text"@).str_of().unwrap();
    let head = "{"@ + blocks_member(args) + "\"channel\":"@ + quoted(cid) + ",\"mrkdwn\":"@ + bool_text(
        mrkdwn_of(args),
    ) + ",\"text\":"@ + quoted(text);
    let th = ",\"thread_ts\":"@ + quoted(ts);
    assert(head + th + "}"@ =~= head + (th + "}"@));
}

/// `slack_reply_to_thread` posts to `chat.postMessage` a body that ends with the
/// `thread_ts` member it was given.
pub proof fn lemma_reply_goes_to_thread(cfg: SlackConfig, args: Json, ts: Seq<char>)
    requires
        args.at("channel_id"@).str_of() is Some,
        args.at("text"@).str_of() is Some,
        args.at("thread_ts"@).str_of() == Some(ts),
    ensures
        handle_view(cfg, "slack_reply_to_thread"@, args, seq![]) matches StepView::Send(q) && q.method
            == Method::Post && q.url == "https://slack.com/api/chat.postMessage"@ && exists|p: Seq<char>|
            q.body == Some(p + (",\"thread_ts\":"@ + quoted(ts) + "}"@)),
{
    reveal_strlit("slack_reply_to_thread");
    reveal_strlit("slack_list_channels");
    assert("slack_list_channels"@.len() == 19);
    reveal_strlit("slack_create_channel");
    assert("slack_create_channel"@.len() == 20);
    reveal_strlit("slack_get_channel_info");
    assert("slack_get_channel_info"@.len() == 22);
    reveal_strlit("slack_invite_to_channel");
    assert("slack_invite_to_channel"@.len() == 23);
    reveal_strlit("slack_set_topic");
    assert("slack_set_topic"@.len() == 15);
    reveal_strlit("slack_post_message");
    assert("slack_post_message"@.len() == 18);
    assert("slack_reply_to_thread"@.len() == 21);
    reveal_strlit("chat.postMessage");
    assert("chat.postMessage"@[0] == 'c');
    assert(trim_start_spec("chat.postMessage"@, '/') == "chat.postMessage"@);
    reveal_strlit("https://slack.com/api/");
    reveal_strlit("https://slack.com/api/chat.postMessage");
    assert(api_url("chat.postMessage"@) =~= "https://slack.com/api/chat.postMessage"@);
    let cid = args.at("channel_id"@).str_of().unwrap();
    let text = args.at("text"@).str_of().unwrap();
    let head = "{"@ + blocks_member(args) + "\"channel\":"@ + quoted(cid) + ",\"mrkdwn\":"@ + bool_text(
        mrkdwn_of(args),
    ) + ",\"text\":"@ + quoted(text);
    let th = ",\"thread_ts\":"@ + quoted(ts);
    assert(head + th + "}"@ =~= head + (th + "}"@));
}

/// `slack_delete_message` posts to `chat.delete` the channel and the `ts` of the message to
/// remove, and nothing else.
pub proof fn lemma_delete_message_request(cfg: SlackConfig, args: Json, cid: Seq<char>, ts: Seq<char>)
    requires
        args.at("channel_id"@).str_of() == Some(cid),
        args.at("ts"@).str_of() == Some(ts),
    ensures
        handle_view(cfg, "slack_delete_message"@, args, seq![]) == send_view(
            Method::Post,
            "https://slack.com/api/chat.delete"@,
            Some("{\"channel\":"@ + quoted(cid) + ",\"ts\":"@ + quoted(ts) + "}"@),
        ),
{
    reveal_strlit("slack_delete_message");
    reveal_strlit("slack_list_channels");
    assert("slack_list_channels"@.len() == 19);
    reveal_strlit("slack_create_channel");
    assert("slack_delete_message"@[6] != "slack_create_channel"@[6]);
    reveal_strlit("slack_get_channel_info");
    assert("slack_get_channel_info"@.len() == 22);
    reveal_strlit("slack_invite_to_channel");
    assert("slack_invite_to_channel"@.len() == 23);
    reveal_strlit("slack_set_topic");
    assert("slack_set_topic"@.len() == 15);
    reveal_strlit("slack_post_message");
    assert("slack_post_message"@.len() == 18);
    reveal_strlit("slack_reply_to_thread");
    assert("slack_reply_to_thread"@.len() == 21);
    reveal_strlit("slack_update_message");
    assert("slack_delete_message"@[6] != "slack_update_message"@[6]);
    assert("slack_delete_message"@.len() == 20);
    reveal_strlit("chat.delete");
    assert("chat.delete"@[0] == 'c');
    assert(trim_start_spec("chat.delete"@, '/') == "chat.delete"@);
    reveal_strlit("https://slack.com/api/");
    reveal_strlit("https://slack.com/api/chat.delete");
    assert(api_url("chat.delete"@) =~= "https://slack.com/api/chat.delete"@);
}

/// `slack_get_channel_history` reads the channel named by `channel_id`, at most 200 messages
/// (20 by default), passing on the `cursor`, `oldest` and `latest` arguments, in that order,
/// when they are given and not empty.
pub proof fn lemma_history_request(cfg: SlackConfig, args: Json, cid: Seq<char>)
    requires
        args.at("channel_id"@).str_of() == Some(cid),
    ensures
        handle_view(cfg, "slack_get_channel_history"@, args, seq![]) == send_view(
            Method::Get,
            "https://slack.com/api/conversations.history?channel="@ + cid + "&limit="@ + dec_nat(
                capped(args, "limit"@, 20, 200),
            ) + match args.at("cursor"@).str_of() {
                Some(c) => if c.len() > 0 {
                    "&cursor="@ + c
                } else {
                    seq![]
                },
                None => seq![],
            } + match args.at("oldest"@).str_of() {
                Some(o) => if o.len() > 0 {
                    "&oldest="@ + o
                } else {
                    seq![]
                },
                None => seq![],
            } + match args.at("latest"@).str_of() {
                Some(l) => if l.len() > 0 {
                    "&latest="@ + l
                } else {
                    seq![]
                },
                None => seq![],
            },
            None,
        ),
{
    reveal_strlit("slack_get_channel_history");
    reveal_strlit("slack_list_channels");
    assert("slack_list_channels"@.len() == 19);
    reveal_strlit("slack_create_channel");
    assert("slack_create_channel"@.len() == 20);
    reveal_strlit("slack_get_channel_info");
    assert("slack_get_channel_info"@.len() == 22);
    reveal_strlit("slack_invite_to_channel");
    assert("slack_invite_to_channel"@.len() == 23);
    reveal_strlit("slack_set_topic");
    assert("slack_set_topic"@.len() == 15);
    reveal_strlit("slack_post_message");
    assert("slack_post_message"@.len() == 18);
    reveal_strlit("slack_reply_to_thread");
    assert("slack_reply_to_thread"@.len() == 21);
    reveal_strlit("slack_update_message");
    assert("slack_update_message"@.len() == 20);
    reveal_strlit("slack_delete_message");
    assert("slack_delete_message"@.len() == 20);
    reveal_strlit("slack_add_reaction");
    assert("slack_add_reaction"@.len() == 18);
    assert("slack_get_channel_history"@.len() == 25);
    reveal_strlit("conversations.history");
    assert("conversations.history"@[0] == 'c');
    assert(trim_start_spec("conversations.history"@, '/') == "conversations.history"@);
    reveal_strlit("https://slack.com/api/");
    reveal_strlit("?channel=");
    reveal_strlit("https://slack.com/api/conversations.history?channel=");
    assert(api_url("conversations.history"@) + "?channel="@ =~= "https://slack.com/api/conversations.history?channel="@);
}

} // verus!
