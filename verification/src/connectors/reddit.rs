//! Reddit connector (OAuth2 REST API).
use vstd::prelude::*;
use crate::connectors::catalog::{build_catalog, catalog_text, requires_properties, schema_view, texts, SchemaNames};
use vstd::string::StringSliceAdditionalSpecFns;
use vstd::utf8::{encode_utf8, is_char_boundary};
use crate::encoding::{push_www_pair, www_pair};
use crate::fmt::{
    byte_len, byte_prefix, byte_prefix_spec, cut_ok, get_i64_text_or_zero, get_str_or, i64_text_or_zero, str_or,
};
use crate::http::{fail_view, form_view, ok_view, send_form, HttpRequest, Method, RequestView, Step, StepView};
use crate::json::{get_array, get_str, get_u64, Json};
use crate::text::{
    dec_int, dec_nat, owned, push_i64, push_str, push_u64, str_eq, trim_end_ws, trim_end_ws_spec, trim_ws,
    trim_ws_spec,
};

verus! {

/// Reddit script-app credentials (`~/.osmozzz/reddit.toml`).
pub struct RedditConfig {
    pub client_id: String,
    pub client_secret: String,
    pub username: String,
    pub password: String,
}

/// The object a listing entry describes: its `data` member when it has a `kind`, else itself.
pub open spec fn entry_data(p: Json) -> Json {
    if p.at("kind"@).str_of() is Some {
        p.at("data"@)
    } else {
        p
    }
}

/// One post as three lines of text.
pub open spec fn post_text(p: Json) -> Seq<char> {
    let data = entry_data(p);
    let subreddit = match data.at("subreddit_name_prefixed"@).str_of() {
        Some(s) => s,
        None => str_or(data, "subreddit"@, "—"@),
    };
    let url = match data.at("permalink"@).str_of() {
        Some(l) => "https://reddit.com"@ + l,
        None => "—"@,
    };
    "• ["@ + str_or(data, "id"@, "—"@) + "] "@ + str_or(data, "title"@, "(sans titre)"@) + "\n  "@
        + subreddit + " | ▲"@ + i64_text_or_zero(data, "score"@) + " | 💬"@ + i64_text_or_zero(
        data,
        "num_comments"@,
    ) + "\n  "@ + url
}

/// Formats a post (a listing entry or a bare post object).
pub fn format_post(p: &Json) -> (r: String)
    ensures
        r@ == post_text(*p),
{
    let null = Json::Null;
    let data: &Json = if get_str(p, "kind").is_some() {
        match p.get("data") {
            Some(d) => d,
            None => &null,
        }
    } else {
        p
    };
    let subreddit = match get_str(data, "subreddit_name_prefixed") {
        Some(s) => s,
        None => get_str_or(data, "subreddit", "—"),
    };
    let mut out = owned("• [");
    push_str(&mut out, get_str_or(data, "id", "—"));
    push_str(&mut out, "] ");
    push_str(&mut out, get_str_or(data, "title", "(sans titre)"));
    push_str(&mut out, "\n  ");
    push_str(&mut out, subreddit);
    push_str(&mut out, " | ▲");
    push_str(&mut out, get_i64_text_or_zero(data, "score").as_str());
    push_str(&mut out, " | 💬");
    push_str(&mut out, get_i64_text_or_zero(data, "num_comments").as_str());
    push_str(&mut out, "\n  ");
    match get_str(data, "permalink") {
        Some(l) => {
            push_str(&mut out, "https://reddit.com");
            push_str(&mut out, l);
        },
        None => push_str(&mut out, "—"),
    }
    out
}

/// The body a comment shows.
pub open spec fn comment_body(c: Json) -> Seq<char> {
    str_or(entry_data(c), "body"@, "—"@)
}

/// Whether the body of a comment can be cut at its 300th byte (always so when it is shorter).
pub open spec fn comment_cut_ok(c: Json) -> bool {
    encode_utf8(comment_body(c)).len() > 300 ==> is_char_boundary(
        encode_utf8(comment_body(c)),
        300,
    )
}

/// One comment as two lines of text; a body longer than 300 bytes is cut there and marked `…`.
pub open spec fn comment_text(c: Json) -> Seq<char> {
    let data = entry_data(c);
    let body = comment_body(c);
    let preview = if encode_utf8(body).len() > 300 {
        byte_prefix_spec(body, 300) + "…"@
    } else {
        body
    };
    "• ["@ + str_or(data, "id"@, "—"@) + "] u/"@ + str_or(data, "author"@, "—"@) + " ("@ + str_or(
        data,
        "subreddit_name_prefixed"@,
        seq![],
    ) + ") ▲"@ + i64_text_or_zero(data, "score"@) + "\n  "@ + preview
}

/// Formats a comment (a listing entry or a bare comment object).
pub fn format_comment(c: &Json) -> (r: String)
    requires
        comment_cut_ok(*c),
    ensures
        r@ == comment_text(*c),
{
    proof {
        reveal_strlit("");
    }
    let null = Json::Null;
    let data: &Json = if get_str(c, "kind").is_some() {
        match c.get("data") {
            Some(d) => d,
            None => &null,
        }
    } else {
        c
    };
    let body = get_str_or(data, "body", "—");
    let mut out = owned("• [");
    push_str(&mut out, get_str_or(data, "id", "—"));
    push_str(&mut out, "] u/");
    push_str(&mut out, get_str_or(data, "author", "—"));
    push_str(&mut out, " (");
    push_str(&mut out, get_str_or(data, "subreddit_name_prefixed", ""));
    push_str(&mut out, ") ▲");
    push_str(&mut out, get_i64_text_or_zero(data, "score").as_str());
    push_str(&mut out, "\n  ");
    if byte_len(body) > 300 {
        push_str(&mut out, byte_prefix(body, 300));
        push_str(&mut out, "…");
    } else {
        push_str(&mut out, body);
    }
    out
}


// ─── Tool calls ──────────────────────────────────────────────────────────────

/// The endpoint that exchanges the account's credentials for a token.
pub open spec fn token_url() -> Seq<char> {
    "https://www.reddit.com/api/v1/access_token"@
}

/// The form of the token request: the password grant for the configured account.
pub open spec fn token_form(cfg: RedditConfig) -> Seq<char> {
    www_pair("grant_type"@, "password"@) + "&"@ + www_pair("username"@, cfg.username@) + "&"@ + www_pair(
        "password"@,
        cfg.password@,
    )
}

/// The first request of every call: the token request, authenticated with the app's
/// credentials.
pub open spec fn token_view(cfg: RedditConfig) -> StepView {
    form_view(token_url(), token_form(cfg))
}

/// A request that carries `token`.
pub open spec fn bearer_view(token: Seq<char>, method: Method, url: Seq<char>, form: Option<Seq<char>>) -> StepView {
    StepView::Send(
        RequestView {
            method,
            url,
            body: form,
            form: form is Some,
            authenticated: false,
            lenient: false,
            status_only: false,
            best_effort: false,
            no_content: false,
            raw_text: false,
            bearer: Some(token),
        },
    )
}

fn bearer_step(token: &str, method: Method, url: String, form: Option<String>) -> (s: Step)
    ensures
        s@ == bearer_view(
            token@,
            method,
            url@,
            match form {
                Some(f) => Some(f@),
                None => None,
            },
        ),
{
    let is_form = form.is_some();
    Step::Send(
        HttpRequest {
            method,
            url,
            body: form,
            form: is_form,
            authenticated: false,
            lenient: false,
            status_only: false,
            best_effort: false,
            no_content: false,
            raw_text: false,
            bearer: Some(owned(token)),
        },
    )
}

/// The error for a missing argument.
pub open spec fn required_text(key: Seq<char>) -> Seq<char> {
    "Paramètre '"@ + key + "' requis"@
}

fn required(key: &str) -> (s: Step)
    ensures
        s@ == fail_view(required_text(key@)),
{
    let mut e = owned("Paramètre '");
    push_str(&mut e, key);
    push_str(&mut e, "' requis");
    Step::Done(Err(e))
}

fn ok_text(t: String) -> (s: Step)
    ensures
        s@ == ok_view(t@),
{
    Step::Done(Ok(t))
}

fn concat3(a: &str, b: &str, c: &str) -> (r: String)
    ensures
        r@ == a@ + b@ + c@,
{
    let mut r = owned(a);
    push_str(&mut r, b);
    push_str(&mut r, c);
    r
}

/// A count argument, `d` by default.
pub open spec fn count_arg(args: Json, key: Seq<char>, d: nat) -> nat {
    match args.at(key).u64_of() {
        Some(n) => n as nat,
        None => d,
    }
}

fn get_count(args: &Json, key: &str, d: u64) -> (n: u64)
    ensures
        n == count_arg(*args, key@, d as nat),
{
    match get_u64(args, key) {
        Some(n) => n,
        None => d,
    }
}

/// The entries of a listing response (`data.children`).
pub open spec fn children(r: Json) -> Seq<Json> {
    match r.at("data"@).at("children"@).array_of() {
        Some(a) => a,
        None => seq![],
    }
}

/// The kinds of listed entries.
#[derive(Clone, Copy)]
pub enum Listed {
    Post,
    Comment,
    Saved,
    Subreddit,
}

/// A text cut after `n` bytes and marked `…` when it is longer.
pub open spec fn ellipsis(t: Seq<char>, n: int) -> Seq<char> {
    if encode_utf8(t).len() > n {
        byte_prefix_spec(t, n) + "…"@
    } else {
        t
    }
}

fn ellipsis_exec(t: &str, n: usize) -> (r: String)
    requires
        cut_ok(t@, n as int),
    ensures
        r@ == ellipsis(t@, n as int),
{
    if byte_len(t) > n {
        let mut r = owned(byte_prefix(t, n));
        push_str(&mut r, "…");
        r
    } else {
        owned(t)
    }
}

/// The description of a subreddit, without surrounding white space.
pub open spec fn sub_description(d: Json) -> Seq<char> {
    trim_ws_spec(str_or(d, "public_description"@, ""@))
}

/// One listed entry, with its line break.
pub open spec fn entry_text(kind: Listed, item: Json) -> Seq<char> {
    match kind {
        Listed::Post => post_text(item) + "\n"@,
        Listed::Comment => comment_text(item.at("data"@)) + "\n"@,
        Listed::Saved => if str_or(item, "kind"@, "t3"@) == "t1"@ {
            comment_text(item.at("data"@)) + "\n"@
        } else {
            post_text(item) + "\n"@
        },
        Listed::Subreddit => {
            let d = item.at("data"@);
            "• "@ + str_or(d, "display_name_prefixed"@, "—"@) + " — "@ + i64_text_or_zero(d, "subscribers"@)
                + " membres\n  "@ + ellipsis(sub_description(d), 150) + "\n"@
        },
    }
}

/// An entry can be listed: the texts cut for their preview end on a character.
pub open spec fn entry_ok(kind: Listed, item: Json) -> bool {
    &&& kind == Listed::Comment ==> comment_cut_ok(item.at("data"@))
    &&& kind == Listed::Saved && str_or(item, "kind"@, "t3"@) == "t1"@ ==> comment_cut_ok(item.at("data"@))
    &&& kind == Listed::Subreddit ==> cut_ok(sub_description(item.at("data"@)), 150)
}

fn format_entry(kind: Listed, item: &Json) -> (r: String)
    requires
        entry_ok(kind, *item),
    ensures
        r@ == entry_text(kind, *item),
{
    let null = Json::Null;
    let data = match item.get("data") {
        Some(d) => d,
        None => &null,
    };
    let mut out = match kind {
        Listed::Post => format_post(item),
        Listed::Comment => format_comment(data),
        Listed::Saved => if str_eq(get_str_or(item, "kind", "t3"), "t1") {
            format_comment(data)
        } else {
            format_post(item)
        },
        Listed::Subreddit => {
            let desc = trim_ws(get_str_or(data, "public_description", ""));
            let mut o = owned("• ");
            push_str(&mut o, get_str_or(data, "display_name_prefixed", "—"));
            push_str(&mut o, " — ");
            push_str(&mut o, get_i64_text_or_zero(data, "subscribers").as_str());
            push_str(&mut o, " membres\n  ");
            push_str(&mut o, ellipsis_exec(desc.as_str(), 150).as_str());
            o
        },
    };
    push_str(&mut out, "\n");
    out
}

/// The entries' texts, one after the other.
pub open spec fn entry_lines(kind: Listed, items: Seq<Json>) -> Seq<char>
    decreases items.len(),
{
    if items.len() == 0 {
        seq![]
    } else {
        entry_lines(kind, items.drop_last()) + entry_text(kind, items.last())
    }
}

/// Every entry can be listed.
pub open spec fn entries_ok(kind: Listed, items: Seq<Json>) -> bool {
    forall|i: int| 0 <= i < items.len() ==> #[trigger] entry_ok(kind, items[i])
}

/// Entries listed: `empty` when there are none, else `head` and the entries, without trailing
/// white space.
pub open spec fn listed(kind: Listed, items: Seq<Json>, head: Seq<char>, empty: Seq<char>) -> Seq<char> {
    if items.len() == 0 {
        empty
    } else {
        trim_end_ws_spec(head + entry_lines(kind, items))
    }
}

fn listed_exec(kind: Listed, items: &Vec<Json>, head: &str, empty: &str) -> (t: String)
    requires
        entries_ok(kind, items@),
    ensures
        t@ == listed(kind, items@, head@, empty@),
{
    let n = items.len();
    if n == 0 {
        return owned(empty);
    }
    let mut out = owned(head);
    for i in 0..n
        invariant
            n == items@.len(),
            entries_ok(kind, items@),
            out@ == head@ + entry_lines(kind, items@.take(i as int)),
    {
        assert(items@.take(i + 1).drop_last() == items@.take(i as int));
        assert(items@.take(i + 1).last() == items@[i as int]);
        assert(entry_ok(kind, items@[i as int]));
        push_str(&mut out, format_entry(kind, &items[i]).as_str());
    }
    assert(items@.take(n as int) == items@);
    trim_end_ws(out.as_str())
}

/// A listing response: `empty` when it has no entry, else the count, `header` and the entries.
pub open spec fn listing(kind: Listed, r: Json, header: Seq<char>, empty: Seq<char>) -> Seq<char> {
    listed(kind, children(r), dec_nat(children(r).len()) + header, empty)
}

fn children_exec(r: &Json) -> (c: Option<&Vec<Json>>)
    ensures
        match c {
            Some(a) => a@ == children(*r),
            None => children(*r) == Seq::<Json>::empty(),
        },
{
    match r.get("data") {
        Some(d) => get_array(d, "children"),
        None => None,
    }
}

fn listing_exec(kind: Listed, r: &Json, header: &str, empty: &str) -> (t: String)
    requires
        entries_ok(kind, children(*r)),
    ensures
        t@ == listing(kind, *r, header@, empty@),
{
    let none: Vec<Json> = Vec::new();
    let items = match children_exec(r) {
        Some(a) => a,
        None => &none,
    };
    assert(items@ =~= children(*r));
    let mut head = String::new();
    push_u64(&mut head, items.len() as u64);
    push_str(&mut head, header);
    listed_exec(kind, items, head.as_str(), empty)
}

/// A `GET` that carries `token`.
pub open spec fn get_view(token: Seq<char>, url: Seq<char>) -> StepView {
    bearer_view(token, Method::Get, url, None)
}

/// A tool that makes one request with the token: the request, then the outcome rendered from
/// its response.
pub open spec fn one_call(req: StepView, rs: Seq<Json>, text: spec_fn(Json) -> Seq<char>) -> StepView {
    if rs.len() == 0 {
        req
    } else {
        ok_view(text(rs[0]))
    }
}

/// The user listings of the configured account.
pub open spec fn user_url(cfg: RedditConfig, what: Seq<char>, args: Json) -> Seq<char> {
    "https://oauth.reddit.com/user/"@ + cfg.username@ + what + dec_nat(count_arg(args, "limit"@, 25))
}

/// `reddit_search_posts`: the search URL, within a subreddit when one is given.
pub open spec fn search_url(args: Json, q: Seq<char>) -> Seq<char> {
    let sub = str_or(args, "subreddit"@, ""@);
    let sort = str_or(args, "sort"@, "relevance"@);
    let limit = dec_nat(count_arg(args, "limit"@, 15));
    if sub.len() == 0 {
        "https://oauth.reddit.com/search?q="@ + q + "&sort="@ + sort + "&limit="@ + limit + "&type=link"@
    } else {
        "https://oauth.reddit.com/r/"@ + sub + "/search?q="@ + q + "&sort="@ + sort + "&limit="@ + limit
            + "&restrict_sr=1&type=link"@
    }
}

/// The comments of a thread that are not `more` placeholders.
pub open spec fn real_comments(cs: Seq<Json>) -> Seq<Json>
    decreases cs.len(),
{
    if cs.len() == 0 {
        seq![]
    } else {
        real_comments(cs.drop_last()) + if cs.last().at("kind"@).str_of() == Some("more"@) {
            seq![]
        } else {
            seq![cs.last()]
        }
    }
}

/// The post of a thread response (the first entry of its first listing).
pub open spec fn thread_post(ls: Seq<Json>) -> Option<Json> {
    let ps = children(ls[0]);
    if ps.len() == 0 {
        None
    } else {
        Some(ps[0].at("data"@))
    }
}

/// The comments of a thread response (its second listing, when there is one).
pub open spec fn thread_comments(ls: Seq<Json>) -> Seq<Json> {
    if ls.len() > 1 {
        real_comments(children(ls[1]))
    } else {
        seq![]
    }
}

/// A post with its text and comments.
pub open spec fn thread_text(p: Json, comments: Seq<Json>) -> Seq<char> {
    let preview = ellipsis(str_or(p, "selftext"@, ""@), 800);
    trim_end_ws_spec(
        "📄 "@ + str_or(p, "title"@, "—"@) + "\n"@ + str_or(p, "subreddit_name_prefixed"@, "—"@) + " | u/"@
            + str_or(p, "author"@, "—"@) + " | ▲"@ + i64_text_or_zero(p, "score"@) + " | 💬"@
            + i64_text_or_zero(p, "num_comments"@) + "\n"@ + match p.at("permalink"@).str_of() {
            Some(l) => "https://reddit.com"@ + l,
            None => "—"@,
        } + "\n"@ + (if preview.len() > 0 {
            "\n"@ + preview + "\n"@
        } else {
            seq![]
        }) + if comments.len() > 0 {
            "\n─── "@ + dec_nat(comments.len()) + " commentaire(s) ───\n\n"@ + entry_lines(Listed::Comment, comments)
        } else {
            seq![]
        },
    )
}

/// The outcome of `reddit_get_post_with_comments`.
pub open spec fn thread_outcome(r: Json) -> StepView {
    match r.array_of() {
        None => fail_view("Réponse Reddit inattendue"@),
        Some(ls) => if ls.len() == 0 {
            fail_view("Post introuvable."@)
        } else {
            match thread_post(ls) {
                None => fail_view("Post non trouvé"@),
                Some(p) => ok_view(thread_text(p, thread_comments(ls))),
            }
        },
    }
}

/// What the thread response needs: the post's text and the comments can be cut.
pub open spec fn thread_ok(r: Json) -> bool {
    match r.array_of() {
        Some(ls) => ls.len() > 0 ==> (match thread_post(ls) {
            Some(p) => cut_ok(str_or(p, "selftext"@, ""@), 800),
            None => true,
        }) && entries_ok(Listed::Comment, thread_comments(ls)),
        None => true,
    }
}

/// The first thing a comment response describes.
pub open spec fn first_thing(r: Json) -> Json {
    match r.at("json"@).at("data"@).at("things"@).array_of() {
        Some(a) => if a.len() > 0 {
            a[0].at("data"@)
        } else {
            Json::Null
        },
        None => Json::Null,
    }
}

/// The form of a comment on `parent`.
pub open spec fn comment_form(parent: Seq<char>, text: Seq<char>) -> Seq<char> {
    www_pair("api_type"@, "json"@) + "&"@ + www_pair("parent"@, parent) + "&"@ + www_pair("text"@, text)
}

/// A posted comment.
pub open spec fn posted_text(lead: Seq<char>, r: Json) -> Seq<char> {
    let t = first_thing(r);
    lead + "\nID   : "@ + str_or(t, "id"@, "—"@) + "\nLien : "@ + match t.at("permalink"@).str_of() {
        Some(l) => "https://reddit.com"@ + l,
        None => "—"@,
    }
}

/// A comment tool: `key` names the thing answered, `prefix` its kind.
pub open spec fn comment_view(
    token: Seq<char>,
    args: Json,
    rs: Seq<Json>,
    key: Seq<char>,
    prefix: Seq<char>,
    lead: Seq<char>,
) -> StepView {
    match args.at(key).str_of() {
        None => fail_view(required_text(key)),
        Some(id) => match args.at("text"@).str_of() {
            None => fail_view(required_text("text"@)),
            Some(text) => one_call(
                bearer_view(
                    token,
                    Method::Post,
                    "https://oauth.reddit.com/api/comment"@,
                    Some(comment_form(prefix + id, text)),
                ),
                rs,
                |r: Json| posted_text(lead, r),
            ),
        },
    }
}

/// The form of `reddit_submit_post`: a link when a URL is given, else a text post.
pub open spec fn submit_form(sub: Seq<char>, title: Seq<char>, args: Json) -> Seq<char> {
    www_pair("api_type"@, "json"@) + "&"@ + www_pair("sr"@, sub) + "&"@ + www_pair("title"@, title) + "&"@
        + match args.at("url"@).str_of() {
        Some(u) => www_pair("kind"@, "link"@) + "&"@ + www_pair("url"@, u),
        None => www_pair("kind"@, "self"@) + "&"@ + www_pair("text"@, str_or(args, "text"@, ""@)),
    }
}

pub open spec fn submit_view(token: Seq<char>, args: Json, rs: Seq<Json>) -> StepView {
    match args.at("subreddit"@).str_of() {
        None => fail_view(required_text("subreddit"@)),
        Some(sub) => match args.at("title"@).str_of() {
            None => fail_view(required_text("title"@)),
            Some(title) => one_call(
                bearer_view(
                    token,
                    Method::Post,
                    "https://oauth.reddit.com/api/submit"@,
                    Some(submit_form(sub, title, args)),
                ),
                rs,
                |r: Json|
                    "Post publié dans r/"@ + sub + " !\nID   : "@ + str_or(r.at("json"@).at("data"@), "id"@, "—"@)
                        + "\nLien : "@ + str_or(
                        r.at("json"@).at("data"@),
                        "url"@,
                        "Post créé (lien non disponible)"@,
                    ),
            ),
        },
    }
}

/// What a vote did, by direction.
pub open spec fn vote_action(d: i64) -> Seq<char> {
    if d == 1 {
        "upvoté"@
    } else if d == -1 {
        "downvoté"@
    } else {
        "vote retiré de"@
    }
}

pub open spec fn vote_view(token: Seq<char>, args: Json, rs: Seq<Json>) -> StepView {
    match args.at("thing_id"@).str_of() {
        None => fail_view(required_text("thing_id"@)),
        Some(id) => match args.at("direction"@).i64_of() {
            None => fail_view("Paramètre 'direction' requis (1, 0 ou -1)"@),
            Some(d) => one_call(
                bearer_view(
                    token,
                    Method::Post,
                    "https://oauth.reddit.com/api/vote"@,
                    Some(www_pair("id"@, id) + "&"@ + www_pair("dir"@, dec_int(d as int))),
                ),
                rs,
                |r: Json| "Vote enregistré : "@ + id + " "@ + vote_action(d) + "."@,
            ),
        },
    }
}

/// The reading tools, once the token is known.
pub open spec fn read_view(cfg: RedditConfig, token: Seq<char>, name: Seq<char>, args: Json, rs: Seq<Json>) -> StepView {
    if name == "reddit_list_saved"@ {
        one_call(
            get_view(
                token,
                "https://oauth.reddit.com/user/"@ + cfg.username@ + "/saved?limit="@ + dec_nat(count_arg(args, "limit"@, 25))
                    + "&type="@ + str_or(args, "type"@, "all"@),
            ),
            rs,
            |r: Json| listing(Listed::Saved, r, " élément(s) sauvegardé(s) :\n\n"@, "Aucun élément sauvegardé."@),
        )
    } else if name == "reddit_list_upvoted"@ {
        one_call(
            get_view(token, user_url(cfg, "/upvoted?limit="@, args)),
            rs,
            |r: Json|
                listing(
                    Listed::Post,
                    r,
                    " post(s) upvoté(s) :\n\n"@,
                    "Aucun post upvoté (l'API Reddit peut masquer cet historique selon les paramètres de confidentialité)."@,
                ),
        )
    } else if name == "reddit_get_my_comments"@ {
        one_call(
            get_view(token, user_url(cfg, "/comments?limit="@, args)),
            rs,
            |r: Json| listing(Listed::Comment, r, " commentaire(s) :\n\n"@, "Aucun commentaire trouvé."@),
        )
    } else if name == "reddit_search_posts"@ {
        match args.at("query"@).str_of() {
            None => fail_view(required_text("query"@)),
            Some(q) => one_call(
                get_view(token, search_url(args, q)),
                rs,
                |r: Json|
                    listing(
                        Listed::Post,
                        r,
                        " résultat(s) pour \""@ + q + "\" :\n\n"@,
                        "Aucun post trouvé pour \""@ + q + "\"."@,
                    ),
            ),
        }
    } else if name == "reddit_list_hot_posts"@ {
        match args.at("subreddit"@).str_of() {
            None => fail_view(required_text("subreddit"@)),
            Some(sub) => one_call(
                get_view(
                    token,
                    "https://oauth.reddit.com/r/"@ + sub + "/hot?limit="@ + dec_nat(count_arg(args, "limit"@, 15)),
                ),
                rs,
                |r: Json|
                    listed(
                        Listed::Post,
                        children(r),
                        "Posts hot de r/"@ + sub + " :\n\n"@,
                        "Aucun post dans r/"@ + sub + "."@,
                    ),
            ),
        }
    } else if name == "reddit_get_post_with_comments"@ {
        match args.at("post_id"@).str_of() {
            None => fail_view(required_text("post_id"@)),
            Some(pid) => if rs.len() == 0 {
                get_view(
                    token,
                    "https://oauth.reddit.com/r/"@ + str_or(args, "subreddit"@, "all"@) + "/comments/"@ + pid
                        + "?limit="@ + dec_nat(count_arg(args, "comment_limit"@, 10)) + "&depth=2"@,
                )
            } else {
                thread_outcome(rs[0])
            },
        }
    } else {
        match args.at("query"@).str_of() {
            None => fail_view(required_text("query"@)),
            Some(q) => one_call(
                get_view(
                    token,
                    "https://oauth.reddit.com/subreddits/search?q="@ + q + "&limit="@ + dec_nat(
                        count_arg(args, "limit"@, 10),
                    ),
                ),
                rs,
                |r: Json|
                    listing(
                        Listed::Subreddit,
                        r,
                        " subreddit(s) trouvé(s) :\n\n"@,
                        "Aucun subreddit trouvé pour \""@ + q + "\"."@,
                    ),
            ),
        }
    }
}

/// The reading tools, by name.
pub open spec fn is_read_tool(name: Seq<char>) -> bool {
    name == "reddit_list_saved"@ || name == "reddit_list_upvoted"@ || name == "reddit_get_my_comments"@
        || name == "reddit_search_posts"@ || name == "reddit_list_hot_posts"@ || name
        == "reddit_get_post_with_comments"@ || name == "reddit_search_subreddits"@
}

/// What a Reddit tool does once the token is known.
pub open spec fn tool_view(cfg: RedditConfig, token: Seq<char>, name: Seq<char>, args: Json, rs: Seq<Json>) -> StepView {
    if is_read_tool(name) {
        read_view(cfg, token, name, args, rs)
    } else if name == "reddit_submit_comment"@ {
        comment_view(token, args, rs, "post_id"@, "t3_"@, "Commentaire posté !"@)
    } else if name == "reddit_reply_to_comment"@ {
        comment_view(token, args, rs, "comment_id"@, "t1_"@, "Réponse postée !"@)
    } else if name == "reddit_submit_post"@ {
        submit_view(token, args, rs)
    } else if name == "reddit_vote"@ {
        vote_view(token, args, rs)
    } else {
        fail_view("Tool Reddit inconnu : "@ + name)
    }
}

/// What a call of Reddit tool `name` with `args` does next, given the responses so far: first
/// the token, then the tool's request with it.
pub open spec fn handle_view(cfg: RedditConfig, name: Seq<char>, args: Json, rs: Seq<Json>) -> StepView {
    if rs.len() == 0 {
        token_view(cfg)
    } else {
        match rs[0].at("access_token"@).str_of() {
            None => fail_view(
                "Reddit auth failed: "@ + str_or(rs[0], "error"@, "unknown"@)
                    + ". Vérifiez client_id, client_secret, username, password dans ~/.osmozzz/reddit.toml"@,
            ),
            Some(token) => tool_view(cfg, token, name, args, rs.drop_first()),
        }
    }
}

/// What the texts cut for display need of the tool's response.
pub open spec fn handle_ok(name: Seq<char>, rs: Seq<Json>) -> bool {
    rs.len() >= 2 ==> {
        let r = rs[1];
        &&& name == "reddit_list_saved"@ ==> entries_ok(Listed::Saved, children(r))
        &&& name == "reddit_get_my_comments"@ ==> entries_ok(Listed::Comment, children(r))
        &&& name == "reddit_search_subreddits"@ ==> entries_ok(Listed::Subreddit, children(r))
        &&& name == "reddit_get_post_with_comments"@ ==> thread_ok(r)
    }
}


fn get_step(token: &str, url: String) -> (s: Step)
    ensures
        s@ == get_view(token@, url@),
{
    bearer_step(token, Method::Get, url, None)
}

/// The values behind references.
pub open spec fn derefs(s: Seq<&Json>) -> Seq<Json> {
    s.map_values(|x: &Json| *x)
}

fn real_comments_exec(all: &Vec<Json>) -> (cs: Vec<&Json>)
    ensures
        derefs(cs@) == real_comments(all@),
{
    let mut cs: Vec<&Json> = Vec::new();
    let n = all.len();
    for i in 0..n
        invariant
            n == all@.len(),
            derefs(cs@) == real_comments(all@.take(i as int)),
    {
        assert(all@.take(i + 1).drop_last() == all@.take(i as int));
        assert(all@.take(i + 1).last() == all@[i as int]);
        let more = match get_str(&all[i], "kind") {
            Some(k) => str_eq(k, "more"),
            None => false,
        };
        let ghost before = cs@;
        if !more {
            cs.push(&all[i]);
            assert(derefs(cs@) =~= derefs(before).push(all@[i as int]));
        }
        assert(derefs(cs@) =~= real_comments(all@.take(i + 1)));
    }
    assert(all@.take(n as int) == all@);
    cs
}

#[verifier::rlimit(40)]
fn thread_text_exec(p: &Json, cs: &Vec<&Json>) -> (t: String)
    requires
        cut_ok(str_or(*p, "selftext"@, ""@), 800),
        entries_ok(Listed::Comment, derefs(cs@)),
    ensures
        t@ == thread_text(*p, derefs(cs@)),
{
    let preview = ellipsis_exec(get_str_or(p, "selftext", ""), 800);
    let mut out = owned("📄 ");
    push_str(&mut out, get_str_or(p, "title", "—"));
    push_str(&mut out, "\n");
    push_str(&mut out, get_str_or(p, "subreddit_name_prefixed", "—"));
    push_str(&mut out, " | u/");
    push_str(&mut out, get_str_or(p, "author", "—"));
    push_str(&mut out, " | ▲");
    push_str(&mut out, get_i64_text_or_zero(p, "score").as_str());
    push_str(&mut out, " | 💬");
    push_str(&mut out, get_i64_text_or_zero(p, "num_comments").as_str());
    push_str(&mut out, "\n");
    match get_str(p, "permalink") {
        Some(l) => {
            push_str(&mut out, "https://reddit.com");
            push_str(&mut out, l);
        },
        None => push_str(&mut out, "—"),
    }
    push_str(&mut out, "\n");
    if !preview.as_str().is_empty() {
        push_str(&mut out, "\n");
        push_str(&mut out, preview.as_str());
        push_str(&mut out, "\n");
    }
    let ghost mid = out@;
    if cs.len() > 0 {
        push_str(&mut out, "\n─── ");
        push_u64(&mut out, cs.len() as u64);
        push_str(&mut out, " commentaire(s) ───\n\n");
        let n = cs.len();
        let ghost head = out@;
        for i in 0..n
            invariant
                n == cs@.len(),
                entries_ok(Listed::Comment, derefs(cs@)),
                out@ == head + entry_lines(Listed::Comment, derefs(cs@).take(i as int)),
        {
            assert(derefs(cs@).take(i + 1).drop_last() == derefs(cs@).take(i as int));
            assert(derefs(cs@).take(i + 1).last() == derefs(cs@)[i as int]);
            assert(entry_ok(Listed::Comment, derefs(cs@)[i as int]));
            push_str(&mut out, format_entry(Listed::Comment, cs[i]).as_str());
        }
        assert(derefs(cs@).take(n as int) == derefs(cs@));
    }
    assert(mid =~= "📄 "@ + str_or(*p, "title"@, "—"@) + "\n"@ + str_or(*p, "subreddit_name_prefixed"@, "—"@)
        + " | u/"@ + str_or(*p, "author"@, "—"@) + " | ▲"@ + i64_text_or_zero(*p, "score"@) + " | 💬"@
        + i64_text_or_zero(*p, "num_comments"@) + "\n"@ + match p.at("permalink"@).str_of() {
        Some(l) => "https://reddit.com"@ + l,
        None => "—"@,
    } + "\n"@ + (if preview@.len() > 0 {
        "\n"@ + preview@ + "\n"@
    } else {
        seq![]
    }));
    assert(out@ =~= mid + if cs@.len() > 0 {
        "\n─── "@ + dec_nat(cs@.len()) + " commentaire(s) ───\n\n"@ + entry_lines(Listed::Comment, derefs(cs@))
    } else {
        seq![]
    });
    trim_end_ws(out.as_str())
}

fn thread_exec(r: &Json) -> (s: Step)
    requires
        thread_ok(*r),
    ensures
        s@ == thread_outcome(*r),
{
    let ls = match r.as_array() {
        None => return Step::Done(Err(owned("Réponse Reddit inattendue"))),
        Some(a) => a,
    };
    if ls.len() == 0 {
        return Step::Done(Err(owned("Post introuvable.")));
    }
    let none: Vec<Json> = Vec::new();
    let ps = match children_exec(&ls[0]) {
        Some(a) => a,
        None => &none,
    };
    assert(ps@ =~= children(ls@[0]));
    if ps.len() == 0 {
        return Step::Done(Err(owned("Post non trouvé")));
    }
    let null = Json::Null;
    let p = match ps[0].get("data") {
        Some(d) => d,
        None => &null,
    };
    let cs = if ls.len() > 1 {
        let all = match children_exec(&ls[1]) {
            Some(a) => a,
            None => &none,
        };
        assert(all@ =~= children(ls@[1]));
        real_comments_exec(all)
    } else {
        let v: Vec<&Json> = Vec::new();
        assert(derefs(v@) =~= thread_comments(ls@));
        v
    };
    assert(derefs(cs@) == thread_comments(ls@));
    Step::Done(Ok(thread_text_exec(p, &cs)))
}

fn posted(lead: &str, r: &Json) -> (t: String)
    ensures
        t@ == posted_text(lead@, *r),
{
    let null = Json::Null;
    let mut t = &null;
    match r.get("json") {
        Some(j) => match j.get("data") {
            Some(d) => match get_array(d, "things") {
                Some(a) => if a.len() > 0 {
                    t = match a[0].get("data") {
                        Some(x) => x,
                        None => &null,
                    };
                },
                None => {},
            },
            None => {},
        },
        None => {},
    }
    assert(*t == first_thing(*r));
    let mut out = owned(lead);
    push_str(&mut out, "\nID   : ");
    push_str(&mut out, get_str_or(t, "id", "—"));
    push_str(&mut out, "\nLien : ");
    match get_str(t, "permalink") {
        Some(l) => {
            push_str(&mut out, "https://reddit.com");
            push_str(&mut out, l);
        },
        None => push_str(&mut out, "—"),
    }
    out
}

fn comment_tool(token: &str, args: &Json, rs: &Vec<Json>, key: &str, prefix: &str, lead: &str) -> (s: Step)
    requires
        rs@.len() >= 1,
    ensures
        s@ == comment_view(token@, *args, rs@.drop_first(), key@, prefix@, lead@),
{
    let id = match get_str(args, key) {
        None => return required(key),
        Some(x) => x,
    };
    let text = match get_str(args, "text") {
        None => return required("text"),
        Some(x) => x,
    };
    if rs.len() == 1 {
        let mut parent = owned(prefix);
        push_str(&mut parent, id);
        let mut form = String::new();
        push_www_pair(&mut form, "api_type", "json");
        push_str(&mut form, "&");
        push_www_pair(&mut form, "parent", parent.as_str());
        push_str(&mut form, "&");
        push_www_pair(&mut form, "text", text);
        return bearer_step(token, Method::Post, owned("https://oauth.reddit.com/api/comment"), Some(form));
    }
    ok_text(posted(lead, &rs[1]))
}

#[verifier::rlimit(40)]
fn submit(token: &str, args: &Json, rs: &Vec<Json>) -> (s: Step)
    requires
        rs@.len() >= 1,
    ensures
        s@ == submit_view(token@, *args, rs@.drop_first()),
{
    let sub = match get_str(args, "subreddit") {
        None => return required("subreddit"),
        Some(x) => x,
    };
    let title = match get_str(args, "title") {
        None => return required("title"),
        Some(x) => x,
    };
    if rs.len() == 1 {
        let mut form = String::new();
        push_www_pair(&mut form, "api_type", "json");
        push_str(&mut form, "&");
        push_www_pair(&mut form, "sr", sub);
        push_str(&mut form, "&");
        push_www_pair(&mut form, "title", title);
        push_str(&mut form, "&");
        match get_str(args, "url") {
            Some(u) => {
                push_www_pair(&mut form, "kind", "link");
                push_str(&mut form, "&");
                push_www_pair(&mut form, "url", u);
            },
            None => {
                push_www_pair(&mut form, "kind", "self");
                push_str(&mut form, "&");
                push_www_pair(&mut form, "text", get_str_or(args, "text", ""));
            },
        }
        assert(form@ =~= submit_form(sub@, title@, *args));
        return bearer_step(token, Method::Post, owned("https://oauth.reddit.com/api/submit"), Some(form));
    }
    let null = Json::Null;
    let data = match rs[1].get("json") {
        Some(j) => match j.get("data") {
            Some(d) => d,
            None => &null,
        },
        None => &null,
    };
    let mut out = concat3("Post publié dans r/", sub, " !\nID   : ");
    push_str(&mut out, get_str_or(data, "id", "—"));
    push_str(&mut out, "\nLien : ");
    push_str(&mut out, get_str_or(data, "url", "Post créé (lien non disponible)"));
    ok_text(out)
}

fn vote(token: &str, args: &Json, rs: &Vec<Json>) -> (s: Step)
    requires
        rs@.len() >= 1,
    ensures
        s@ == vote_view(token@, *args, rs@.drop_first()),
{
    let id = match get_str(args, "thing_id") {
        None => return required("thing_id"),
        Some(x) => x,
    };
    let d = match args.get("direction") {
        Some(v) => match v.as_i64() {
            Some(d) => d,
            None => return Step::Done(Err(owned("Paramètre 'direction' requis (1, 0 ou -1)"))),
        },
        None => return Step::Done(Err(owned("Paramètre 'direction' requis (1, 0 ou -1)"))),
    };
    if rs.len() == 1 {
        let mut dir = String::new();
        push_i64(&mut dir, d);
        let mut form = String::new();
        push_www_pair(&mut form, "id", id);
        push_str(&mut form, "&");
        push_www_pair(&mut form, "dir", dir.as_str());
        return bearer_step(token, Method::Post, owned("https://oauth.reddit.com/api/vote"), Some(form));
    }
    let action = if d == 1 {
        "upvoté"
    } else if d == -1 {
        "downvoté"
    } else {
        "vote retiré de"
    };
    let mut out = concat3("Vote enregistré : ", id, " ");
    push_str(&mut out, action);
    push_str(&mut out, ".");
    ok_text(out)
}


fn user_listing_url(cfg: &RedditConfig, what: &str, args: &Json) -> (u: String)
    ensures
        u@ == user_url(*cfg, what@, *args),
{
    let mut u = concat3("https://oauth.reddit.com/user/", cfg.username.as_str(), what);
    push_u64(&mut u, get_count(args, "limit", 25));
    u
}

fn read_tools(cfg: &RedditConfig, token: &str, name: &str, args: &Json, rs: &Vec<Json>) -> (s: Step)
    requires
        rs@.len() >= 1,
        is_read_tool(name@),
        handle_ok(name@, rs@),
    ensures
        s@ == read_view(*cfg, token@, name@, *args, rs@.drop_first()),
{
    let fresh = rs.len() == 1;
    if str_eq(name, "reddit_list_saved") {
        if fresh {
            let mut u = user_listing_url(cfg, "/saved?limit=", args);
            push_str(&mut u, "&type=");
            push_str(&mut u, get_str_or(args, "type", "all"));
            return get_step(token, u);
        }
        ok_text(listing_exec(Listed::Saved, &rs[1], " élément(s) sauvegardé(s) :\n\n", "Aucun élément sauvegardé."))
    } else if str_eq(name, "reddit_list_upvoted") {
        if fresh {
            return get_step(token, user_listing_url(cfg, "/upvoted?limit=", args));
        }
        assert(entries_ok(Listed::Post, children(rs@[1])));
        ok_text(
            listing_exec(
                Listed::Post,
                &rs[1],
                " post(s) upvoté(s) :\n\n",
                "Aucun post upvoté (l'API Reddit peut masquer cet historique selon les paramètres de confidentialité).",
            ),
        )
    } else if str_eq(name, "reddit_get_my_comments") {
        if fresh {
            return get_step(token, user_listing_url(cfg, "/comments?limit=", args));
        }
        ok_text(listing_exec(Listed::Comment, &rs[1], " commentaire(s) :\n\n", "Aucun commentaire trouvé."))
    } else if str_eq(name, "reddit_search_posts") {
        let q = match get_str(args, "query") {
            None => return required("query"),
            Some(x) => x,
        };
        if fresh {
            let sub = get_str_or(args, "subreddit", "");
            let sort = get_str_or(args, "sort", "relevance");
            let limit = get_count(args, "limit", 15);
            let mut u = if sub.is_empty() {
                owned("https://oauth.reddit.com/search?q=")
            } else {
                concat3("https://oauth.reddit.com/r/", sub, "/search?q=")
            };
            push_str(&mut u, q);
            push_str(&mut u, "&sort=");
            push_str(&mut u, sort);
            push_str(&mut u, "&limit=");
            push_u64(&mut u, limit);
            push_str(&mut u, if sub.is_empty() { "&type=link" } else { "&restrict_sr=1&type=link" });
            assert(u@ =~= search_url(*args, q@));
            return get_step(token, u);
        }
        assert(entries_ok(Listed::Post, children(rs@[1])));
        let header = concat3(" résultat(s) pour \"", q, "\" :\n\n");
        let empty = concat3("Aucun post trouvé pour \"", q, "\".");
        ok_text(listing_exec(Listed::Post, &rs[1], header.as_str(), empty.as_str()))
    } else if str_eq(name, "reddit_list_hot_posts") {
        let sub = match get_str(args, "subreddit") {
            None => return required("subreddit"),
            Some(x) => x,
        };
        if fresh {
            let mut u = concat3("https://oauth.reddit.com/r/", sub, "/hot?limit=");
            push_u64(&mut u, get_count(args, "limit", 15));
            return get_step(token, u);
        }
        let none: Vec<Json> = Vec::new();
        let items = match children_exec(&rs[1]) {
            Some(a) => a,
            None => &none,
        };
        assert(items@ =~= children(rs@[1]));
        assert(entries_ok(Listed::Post, items@));
        let head = concat3("Posts hot de r/", sub, " :\n\n");
        let empty = concat3("Aucun post dans r/", sub, ".");
        ok_text(listed_exec(Listed::Post, items, head.as_str(), empty.as_str()))
    } else if str_eq(name, "reddit_get_post_with_comments") {
        let pid = match get_str(args, "post_id") {
            None => return required("post_id"),
            Some(x) => x,
        };
        if fresh {
            let mut u = concat3("https://oauth.reddit.com/r/", get_str_or(args, "subreddit", "all"), "/comments/");
            push_str(&mut u, pid);
            push_str(&mut u, "?limit=");
            push_u64(&mut u, get_count(args, "comment_limit", 10));
            push_str(&mut u, "&depth=2");
            return get_step(token, u);
        }
        thread_exec(&rs[1])
    } else {
        let q = match get_str(args, "query") {
            None => return required("query"),
            Some(x) => x,
        };
        if fresh {
            let mut u = concat3("https://oauth.reddit.com/subreddits/search?q=", q, "&limit=");
            push_u64(&mut u, get_count(args, "limit", 10));
            return get_step(token, u);
        }
        let empty = concat3("Aucun subreddit trouvé pour \"", q, "\".");
        ok_text(listing_exec(Listed::Subreddit, &rs[1], " subreddit(s) trouvé(s) :\n\n", empty.as_str()))
    }
}

fn tool_step(cfg: &RedditConfig, token: &str, name: &str, args: &Json, rs: &Vec<Json>) -> (s: Step)
    requires
        rs@.len() >= 1,
        handle_ok(name@, rs@),
    ensures
        s@ == tool_view(*cfg, token@, name@, *args, rs@.drop_first()),
{
    if str_eq(name, "reddit_list_saved") || str_eq(name, "reddit_list_upvoted") || str_eq(
        name,
        "reddit_get_my_comments",
    ) || str_eq(name, "reddit_search_posts") || str_eq(name, "reddit_list_hot_posts") || str_eq(
        name,
        "reddit_get_post_with_comments",
    ) || str_eq(name, "reddit_search_subreddits") {
        read_tools(cfg, token, name, args, rs)
    } else if str_eq(name, "reddit_submit_comment") {
        comment_tool(token, args, rs, "post_id", "t3_", "Commentaire posté !")
    } else if str_eq(name, "reddit_reply_to_comment") {
        comment_tool(token, args, rs, "comment_id", "t1_", "Réponse postée !")
    } else if str_eq(name, "reddit_submit_post") {
        submit(token, args, rs)
    } else if str_eq(name, "reddit_vote") {
        vote(token, args, rs)
    } else {
        let mut e = owned("Tool Reddit inconnu : ");
        push_str(&mut e, name);
        Step::Done(Err(e))
    }
}

fn comment_can_cut(c: &Json) -> (r: bool)
    ensures
        r == comment_cut_ok(*c),
{
    let null = Json::Null;
    let data = match get_str(c, "kind") {
        Some(_) => match c.get("data") {
            Some(d) => d,
            None => &null,
        },
        None => c,
    };
    crate::fmt::can_cut(get_str_or(data, "body", "—"), 300)
}

fn entry_is_ok(kind: Listed, item: &Json) -> (r: bool)
    ensures
        r == entry_ok(kind, *item),
{
    let null = Json::Null;
    let data = match item.get("data") {
        Some(d) => d,
        None => &null,
    };
    match kind {
        Listed::Comment => comment_can_cut(data),
        Listed::Saved => {
            if str_eq(get_str_or(item, "kind", "t3"), "t1") {
                comment_can_cut(data)
            } else {
                true
            }
        },
        Listed::Subreddit => {
            let d = trim_ws(get_str_or(data, "public_description", ""));
            crate::fmt::can_cut(d.as_str(), 150)
        },
        Listed::Post => true,
    }
}

fn entries_are_ok(kind: Listed, items: Option<&Vec<Json>>) -> (r: bool)
    ensures
        r == entries_ok(
            kind,
            match items {
                Some(a) => a@,
                None => seq![],
            },
        ),
{
    let a = match items {
        Some(a) => a,
        None => return true,
    };
    let mut i: usize = 0;
    while i < a.len()
        invariant
            i <= a@.len(),
            items == Some(a),
            forall|k: int| 0 <= k < i ==> #[trigger] entry_ok(kind, a@[k]),
        decreases a.len() - i,
    {
        if !entry_is_ok(kind, &a[i]) {
            assert(!entry_ok(kind, a@[i as int]));
            return false;
        }
        i = i + 1;
    }
    true
}

fn comments_are_ok(cs: &Vec<&Json>) -> (r: bool)
    ensures
        r == entries_ok(Listed::Comment, derefs(cs@)),
{
    let mut i: usize = 0;
    while i < cs.len()
        invariant
            i <= cs@.len(),
            forall|k: int| 0 <= k < i ==> #[trigger] entry_ok(Listed::Comment, derefs(cs@)[k]),
        decreases cs.len() - i,
    {
        if !entry_is_ok(Listed::Comment, cs[i]) {
            assert(!entry_ok(Listed::Comment, derefs(cs@)[i as int]));
            return false;
        }
        i = i + 1;
    }
    true
}

fn thread_can(r: &Json) -> (b: bool)
    ensures
        b == thread_ok(*r),
{
    let ls = match r.as_array() {
        None => return true,
        Some(a) => a,
    };
    if ls.len() == 0 {
        return true;
    }
    let none: Vec<Json> = Vec::new();
    let ps = match children_exec(&ls[0]) {
        Some(a) => a,
        None => &none,
    };
    assert(ps@ =~= children(ls@[0]));
    let post_ok = if ps.len() == 0 {
        true
    } else {
        let null = Json::Null;
        let p = match ps[0].get("data") {
            Some(d) => d,
            None => &null,
        };
        crate::fmt::can_cut(get_str_or(p, "selftext", ""), 800)
    };
    let cs = if ls.len() > 1 {
        let all = match children_exec(&ls[1]) {
            Some(a) => a,
            None => &none,
        };
        assert(all@ =~= children(ls@[1]));
        real_comments_exec(all)
    } else {
        let v: Vec<&Json> = Vec::new();
        assert(derefs(v@) =~= thread_comments(ls@));
        v
    };
    post_ok && comments_are_ok(&cs)
}

/// Whether a call of `name` can take `responses` without panicking (see [`handle_ok`]).
pub fn can_handle(name: &str, responses: &Vec<Json>) -> (r: bool)
    ensures
        r == handle_ok(name@, responses@),
{
    proof {
        reveal_strlit("reddit_list_saved");
        reveal_strlit("reddit_get_my_comments");
        reveal_strlit("reddit_search_subreddits");
        reveal_strlit("reddit_get_post_with_comments");
        assert("reddit_list_saved"@.len() == 17);
        assert("reddit_get_my_comments"@.len() == 22);
        assert("reddit_search_subreddits"@.len() == 24);
        assert("reddit_get_post_with_comments"@.len() == 29);
    }
    if responses.len() < 2 {
        return true;
    }
    let r = &responses[1];
    if str_eq(name, "reddit_list_saved") {
        entries_are_ok(Listed::Saved, children_exec(r))
    } else if str_eq(name, "reddit_get_my_comments") {
        entries_are_ok(Listed::Comment, children_exec(r))
    } else if str_eq(name, "reddit_search_subreddits") {
        entries_are_ok(Listed::Subreddit, children_exec(r))
    } else if str_eq(name, "reddit_get_post_with_comments") {
        thread_can(r)
    } else {
        true
    }
}

/// Runs one step of the Reddit tool `name` called with `args`: `responses` holds the parsed
/// responses to the requests made so far, the token response first.
/// `reddit_get_subreddit_info`, which reads a creation time given as a floating-point number,
/// is not handled here.
pub fn handle(cfg: &RedditConfig, name: &str, args: &Json, responses: &Vec<Json>) -> (s: Step)
    requires
        name@ != "reddit_get_subreddit_info"@,
        handle_ok(name@, responses@),
    ensures
        s@ == handle_view(*cfg, name@, *args, responses@),
{
    let rs = responses;
    if rs.len() == 0 {
        let mut form = String::new();
        push_www_pair(&mut form, "grant_type", "password");
        push_str(&mut form, "&");
        push_www_pair(&mut form, "username", cfg.username.as_str());
        push_str(&mut form, "&");
        push_www_pair(&mut form, "password", cfg.password.as_str());
        return send_form(owned("https://www.reddit.com/api/v1/access_token"), form);
    }
    match get_str(&rs[0], "access_token") {
        None => {
            let mut e = owned("Reddit auth failed: ");
            push_str(&mut e, get_str_or(&rs[0], "error", "unknown"));
            push_str(
                &mut e,
                ". Vérifiez client_id, client_secret, username, password dans ~/.osmozzz/reddit.toml",
            );
            Step::Done(Err(e))
        },
        Some(token) => tool_step(cfg, token, name, args, rs),
    }
}

/// A call starts with the token request, and ends once the tool's response has come; every
/// request but the token request carries the token that came back.
pub proof fn lemma_handle_ends(cfg: RedditConfig, name: Seq<char>, args: Json, rs: Seq<Json>)
    ensures
        rs.len() == 0 ==> handle_view(cfg, name, args, rs) == token_view(cfg),
        rs.len() >= 2 ==> handle_view(cfg, name, args, rs) is Done,
        rs.len() >= 1 ==> (handle_view(cfg, name, args, rs) matches StepView::Send(req) ==> rs[0].at(
            "access_token"@,
        ).str_of() == req.bearer && !req.authenticated),
{
}

/// The Reddit tools offered to MCP clients: name, description and input schema of each, as a
/// The catalog's tools, in its order: for each, the JSON text of its members before its name
/// (its description and input schema).
pub const TOOL_HEADS: [&'static str; 12] = [
    r#"{"description":"REDDIT 🟠 — Liste les posts et commentaires sauvegardés par l'utilisateur connecté. Retourne titre, subreddit, score et lien. Utiliser reddit_get_post_with_comments pour lire le détail.","inputSchema":{"properties":{"limit":{"default":25,"description":"Nombre d'éléments à retourner (défaut: 25)","maximum":100,"minimum":1,"type":"integer"},"type":{"default":"all","description":"Filtrer par type : links (posts), comments, all (défaut: all)","enum":["links","comments","all"],"type":"string"}},"type":"object"},"name":"#,
    r#"{"description":"REDDIT 🟠 — Liste les posts upvotés par l'utilisateur connecté. Retourne titre, subreddit, score et lien.","inputSchema":{"properties":{"limit":{"default":25,"description":"Nombre de posts à retourner (défaut: 25)","maximum":100,"minimum":1,"type":"integer"}},"type":"object"},"name":"#,
    r#"{"description":"REDDIT 🟠 — Liste les derniers commentaires postés par l'utilisateur connecté. Utile pour voir son historique de participation.","inputSchema":{"properties":{"limit":{"default":25,"description":"Nombre de commentaires à retourner (défaut: 25)","maximum":100,"minimum":1,"type":"integer"}},"type":"object"},"name":"#,
    r#"{"description":"REDDIT 🟠 — Cherche des posts par mot-clé. Si subreddit est fourni, cherche dans ce subreddit uniquement (ex: 'rust', 'LocalLLaMA'). Sinon cherche sur tout Reddit. Retourne titre, subreddit, score, date et lien.","inputSchema":{"properties":{"limit":{"default":15,"description":"Nombre de résultats (défaut: 15)","maximum":50,"minimum":1,"type":"integer"},"query":{"description":"Mots-clés à chercher (ex: 'local AI memory MCP')","type":"string"},"sort":{"default":"relevance","description":"Tri des résultats (défaut: relevance)","enum":["relevance","hot","top","new"],"type":"string"},"subreddit":{"description":"Chercher dans ce subreddit uniquement (ex: 'LocalLLaMA') — optionnel","type":"string"}},"required":["query"],"type":"object"},"name":"#,
    r#"{"description":"REDDIT 🟠 — Liste les posts populaires (hot) d'un subreddit en ce moment. Idéal pour monitorer une communauté.","inputSchema":{"properties":{"limit":{"default":15,"description":"Nombre de posts (défaut: 15)","maximum":50,"minimum":1,"type":"integer"},"subreddit":{"description":"Nom du subreddit sans le r/ (ex: 'rust', 'LocalLLaMA', 'privacy')","type":"string"}},"required":["subreddit"],"type":"object"},"name":"#,
    r#"{"description":"REDDIT 🟠 — Récupère un post Reddit ET ses commentaires principaux. Indispensable pour lire le contexte avant de répondre. Utiliser reddit_search_posts pour obtenir le post_id.","inputSchema":{"properties":{"comment_limit":{"default":10,"description":"Nombre de commentaires à retourner (défaut: 10)","maximum":50,"minimum":1,"type":"integer"},"post_id":{"description":"ID du post Reddit (ex: '1abc2de' — sans le t3_ prefix)","type":"string"},"subreddit":{"description":"Subreddit du post (ex: 'rust') — optionnel mais accélère la requête","type":"string"}},"required":["post_id"],"type":"object"},"name":"#,
    r#"{"description":"REDDIT 🟠 — Cherche des subreddits par mot-clé. Utile pour trouver les bonnes communautés où s'engager.","inputSchema":{"properties":{"limit":{"default":10,"description":"Nombre de subreddits (défaut: 10)","maximum":25,"minimum":1,"type":"integer"},"query":{"description":"Mots-clés pour chercher des subreddits (ex: 'artificial intelligence', 'privacy tools')","type":"string"}},"required":["query"],"type":"object"},"name":"#,
    r#"{"description":"REDDIT 🟠 — Récupère les infos d'un subreddit : description, règles, nombre d'abonnés et statut NSFW. À consulter avant de poster pour respecter les règles.","inputSchema":{"properties":{"subreddit":{"description":"Nom du subreddit sans le r/ (ex: 'rust')","type":"string"}},"required":["subreddit"],"type":"object"},"name":"#,
    r#"{"description":"REDDIT 🟠 — Poste un commentaire sur un post Reddit. Toujours lire le post avec reddit_get_post_with_comments avant de commenter. Retourne l'ID du commentaire créé.","inputSchema":{"properties":{"post_id":{"description":"ID du post (ex: '1abc2de' — le t3_ est ajouté automatiquement)","type":"string"},"text":{"description":"Texte du commentaire en Markdown Reddit","type":"string"}},"required":["post_id","text"],"type":"object"},"name":"#,
    r#"{"description":"REDDIT 🟠 — Répond à un commentaire existant. Utiliser reddit_get_post_with_comments pour obtenir le comment_id. Retourne l'ID du commentaire créé.","inputSchema":{"properties":{"comment_id":{"description":"ID du commentaire auquel répondre (ex: 'abc123' — le t1_ est ajouté automatiquement)","type":"string"},"text":{"description":"Texte de la réponse en Markdown Reddit","type":"string"}},"required":["comment_id","text"],"type":"object"},"name":"#,
    r#"{"description":"REDDIT 🟠 — Publie un nouveau post dans un subreddit. Toujours vérifier les règles avec reddit_get_subreddit_info avant. Retourne le lien du post créé.","inputSchema":{"properties":{"subreddit":{"description":"Subreddit cible sans le r/ (ex: 'rust')","type":"string"},"text":{"description":"Corps du post en Markdown (pour un post texte)","type":"string"},"title":{"description":"Titre du post","type":"string"},"url":{"description":"URL pour un post de type lien (optionnel — si fourni, text est ignoré)","type":"string"}},"required":["subreddit","title"],"type":"object"},"name":"#,
    r#"{"description":"REDDIT 🟠 — Upvote ou downvote un post ou commentaire Reddit.","inputSchema":{"properties":{"direction":{"description":"1 = upvote, 0 = retirer le vote, -1 = downvote","enum":[1,0,-1],"type":"integer"},"thing_id":{"description":"ID complet avec prefix : t3_xxx pour un post, t1_xxx pour un commentaire","type":"string"}},"required":["thing_id","direction"],"type":"object"},"name":"#
];

/// The names of the catalog's tools, in its order (those of [`catalog_names`]).
pub const TOOL_NAMES: [&'static str; 12] = [
    "reddit_list_saved",
    "reddit_list_upvoted",
    "reddit_get_my_comments",
    "reddit_search_posts",
    "reddit_list_hot_posts",
    "reddit_get_post_with_comments",
    "reddit_search_subreddits",
    "reddit_get_subreddit_info",
    "reddit_submit_comment",
    "reddit_reply_to_comment",
    "reddit_submit_post",
    "reddit_vote"
];

/// The Reddit tools offered to MCP clients, as a JSON array: one entry per tool of
/// [`catalog_names`], in order, each with its description and input schema (from
/// [`TOOL_HEADS`]) and its name.
pub fn tools() -> (r: String)
    ensures
        r@ == catalog_text(texts(TOOL_HEADS@), catalog_names()),
{
    assert(texts(TOOL_NAMES@) =~= catalog_names());
    build_catalog(&TOOL_HEADS, &TOOL_NAMES)
}

/// The names of the tools in the catalog, in its order.
pub open spec fn catalog_names() -> Seq<Seq<char>> {
    seq![
        "reddit_list_saved"@,
        "reddit_list_upvoted"@,
        "reddit_get_my_comments"@,
        "reddit_search_posts"@,
        "reddit_list_hot_posts"@,
        "reddit_get_post_with_comments"@,
        "reddit_search_subreddits"@,
        "reddit_get_subreddit_info"@,
        "reddit_submit_comment"@,
        "reddit_reply_to_comment"@,
        "reddit_submit_post"@,
        "reddit_vote"@
    ]
}

/// The names of the tools in the catalog, in its order (see [`catalog_names`]).
pub fn tool_names() -> (r: Vec<&'static str>)
    ensures
        r@.map_values(|s: &'static str| s@) == catalog_names(),
{
    let r = vec![
        "reddit_list_saved",
        "reddit_list_upvoted",
        "reddit_get_my_comments",
        "reddit_search_posts",
        "reddit_list_hot_posts",
        "reddit_get_post_with_comments",
        "reddit_search_subreddits",
        "reddit_get_subreddit_info",
        "reddit_submit_comment",
        "reddit_reply_to_comment",
        "reddit_submit_post",
        "reddit_vote"
    ];
    assert(r@.map_values(|s: &'static str| s@) =~= catalog_names());
    r
}

/// Once the token has come, a tool name that [`tools`] does not serve (one outside
/// [`catalog_names`]) gets the unknown-tool error, without a further request.
pub proof fn lemma_unknown_tool(cfg: RedditConfig, name: Seq<char>, args: Json, rs: Seq<Json>)
    requires
        !catalog_names().contains(name),
        rs.len() >= 1,
        rs[0].at("access_token"@).str_of() is Some,
    ensures
        handle_view(cfg, name, args, rs) == fail_view("Tool Reddit inconnu : "@ + name),
{
    assert(catalog_names()[0] == "reddit_list_saved"@);
    assert(catalog_names()[1] == "reddit_list_upvoted"@);
    assert(catalog_names()[2] == "reddit_get_my_comments"@);
    assert(catalog_names()[3] == "reddit_search_posts"@);
    assert(catalog_names()[4] == "reddit_list_hot_posts"@);
    assert(catalog_names()[5] == "reddit_get_post_with_comments"@);
    assert(catalog_names()[6] == "reddit_search_subreddits"@);
    assert(catalog_names()[7] == "reddit_get_subreddit_info"@);
    assert(catalog_names()[8] == "reddit_submit_comment"@);
    assert(catalog_names()[9] == "reddit_reply_to_comment"@);
    assert(catalog_names()[10] == "reddit_submit_post"@);
    assert(catalog_names()[11] == "reddit_vote"@);
}

/// Every tool that [`tools`] serves (those of [`catalog_names`]) and that this module runs is
/// handled: its first step after the token is never the unknown-tool error.
pub proof fn lemma_catalog_handled(cfg: RedditConfig, name: Seq<char>, args: Json, token_reply: Json)
    requires
        catalog_names().contains(name),
        name != "reddit_get_subreddit_info"@,
        token_reply.at("access_token"@).str_of() is Some,
    ensures
        handle_view(cfg, name, args, seq![token_reply]) != fail_view("Tool Reddit inconnu : "@ + name),
{
    reveal_strlit("Paramètre '");
    reveal_strlit("Paramètre 'direction' requis (1, 0 ou -1)");
    reveal_strlit("Post introuvable.");
    reveal_strlit("Post non trouvé");
    reveal_strlit("Reddit auth failed: ");
    reveal_strlit("Réponse Reddit inattendue");
    reveal_strlit("Tool Reddit inconnu : ");
    assert(("Tool Reddit inconnu : "@ + name)[0] == 'T');
    assert(catalog_names()[0] == "reddit_list_saved"@);
    assert(catalog_names()[1] == "reddit_list_upvoted"@);
    assert(catalog_names()[2] == "reddit_get_my_comments"@);
    assert(catalog_names()[3] == "reddit_search_posts"@);
    assert(catalog_names()[4] == "reddit_list_hot_posts"@);
    assert(catalog_names()[5] == "reddit_get_post_with_comments"@);
    assert(catalog_names()[6] == "reddit_search_subreddits"@);
    assert(catalog_names()[7] == "reddit_get_subreddit_info"@);
    assert(catalog_names()[8] == "reddit_submit_comment"@);
    assert(catalog_names()[9] == "reddit_reply_to_comment"@);
    assert(catalog_names()[10] == "reddit_submit_post"@);
    assert(catalog_names()[11] == "reddit_vote"@);
}

/// The names of each catalog tool's input properties and of those it requires, in catalog
/// order (properties by name).
pub open spec fn catalog_schemas() -> Seq<(Seq<char>, Seq<Seq<char>>, Seq<Seq<char>>)> {
    seq![
        ("reddit_list_saved"@, seq!["limit"@, "type"@], seq![]),
        ("reddit_list_upvoted"@, seq!["limit"@], seq![]),
        ("reddit_get_my_comments"@, seq!["limit"@], seq![]),
        ("reddit_search_posts"@, seq!["limit"@, "query"@, "sort"@, "subreddit"@], seq!["query"@]),
        ("reddit_list_hot_posts"@, seq!["limit"@, "subreddit"@], seq!["subreddit"@]),
        ("reddit_get_post_with_comments"@, seq!["comment_limit"@, "post_id"@, "subreddit"@], seq!["post_id"@]),
        ("reddit_search_subreddits"@, seq!["limit"@, "query"@], seq!["query"@]),
        ("reddit_get_subreddit_info"@, seq!["subreddit"@], seq!["subreddit"@]),
        ("reddit_submit_comment"@, seq!["post_id"@, "text"@], seq!["post_id"@, "text"@]),
        ("reddit_reply_to_comment"@, seq!["comment_id"@, "text"@], seq!["comment_id"@, "text"@]),
        ("reddit_submit_post"@, seq!["subreddit"@, "text"@, "title"@, "url"@], seq!["subreddit"@, "title"@]),
        ("reddit_vote"@, seq!["direction"@, "thing_id"@], seq!["thing_id"@, "direction"@])
    ]
}

/// The names of each catalog tool's input properties and required inputs (see
/// [`catalog_schemas`]).
pub fn tool_schemas() -> (r: Vec<SchemaNames>)
    ensures
        r@.map_values(|e: SchemaNames| schema_view(e)) == catalog_schemas(),
{
    let r: Vec<SchemaNames> = vec![
        ("reddit_list_saved", vec!["limit", "type"], vec![]),
        ("reddit_list_upvoted", vec!["limit"], vec![]),
        ("reddit_get_my_comments", vec!["limit"], vec![]),
        ("reddit_search_posts", vec!["limit", "query", "sort", "subreddit"], vec!["query"]),
        ("reddit_list_hot_posts", vec!["limit", "subreddit"], vec!["subreddit"]),
        ("reddit_get_post_with_comments", vec!["comment_limit", "post_id", "subreddit"], vec!["post_id"]),
        ("reddit_search_subreddits", vec!["limit", "query"], vec!["query"]),
        ("reddit_get_subreddit_info", vec!["subreddit"], vec!["subreddit"]),
        ("reddit_submit_comment", vec!["post_id", "text"], vec!["post_id", "text"]),
        ("reddit_reply_to_comment", vec!["comment_id", "text"], vec!["comment_id", "text"]),
        ("reddit_submit_post", vec!["subreddit", "text", "title", "url"], vec!["subreddit", "title"]),
        ("reddit_vote", vec!["direction", "thing_id"], vec!["thing_id", "direction"])
    ];
    assert(r@[0].1@.map_values(|s: &'static str| s@) =~= catalog_schemas()[0].1);
    assert(r@[0].2@.map_values(|s: &'static str| s@) =~= catalog_schemas()[0].2);
    assert(r@[1].1@.map_values(|s: &'static str| s@) =~= catalog_schemas()[1].1);
    assert(r@[1].2@.map_values(|s: &'static str| s@) =~= catalog_schemas()[1].2);
    assert(r@[2].1@.map_values(|s: &'static str| s@) =~= catalog_schemas()[2].1);
    assert(r@[2].2@.map_values(|s: &'static str| s@) =~= catalog_schemas()[2].2);
    assert(r@[3].1@.map_values(|s: &'static str| s@) =~= catalog_schemas()[3].1);
    assert(r@[3].2@.map_values(|s: &'static str| s@) =~= catalog_schemas()[3].2);
    assert(r@[4].1@.map_values(|s: &'static str| s@) =~= catalog_schemas()[4].1);
    assert(r@[4].2@.map_values(|s: &'static str| s@) =~= catalog_schemas()[4].2);
    assert(r@[5].1@.map_values(|s: &'static str| s@) =~= catalog_schemas()[5].1);
    assert(r@[5].2@.map_values(|s: &'static str| s@) =~= catalog_schemas()[5].2);
    assert(r@[6].1@.map_values(|s: &'static str| s@) =~= catalog_schemas()[6].1);
    assert(r@[6].2@.map_values(|s: &'static str| s@) =~= catalog_schemas()[6].2);
    assert(r@[7].1@.map_values(|s: &'static str| s@) =~= catalog_schemas()[7].1);
    assert(r@[7].2@.map_values(|s: &'static str| s@) =~= catalog_schemas()[7].2);
    assert(r@[8].1@.map_values(|s: &'static str| s@) =~= catalog_schemas()[8].1);
    assert(r@[8].2@.map_values(|s: &'static str| s@) =~= catalog_schemas()[8].2);
    assert(r@[9].1@.map_values(|s: &'static str| s@) =~= catalog_schemas()[9].1);
    assert(r@[9].2@.map_values(|s: &'static str| s@) =~= catalog_schemas()[9].2);
    assert(r@[10].1@.map_values(|s: &'static str| s@) =~= catalog_schemas()[10].1);
    assert(r@[10].2@.map_values(|s: &'static str| s@) =~= catalog_schemas()[10].2);
    assert(r@[11].1@.map_values(|s: &'static str| s@) =~= catalog_schemas()[11].1);
    assert(r@[11].2@.map_values(|s: &'static str| s@) =~= catalog_schemas()[11].2);
    assert(r@.map_values(|e: SchemaNames| schema_view(e)) =~= catalog_schemas());
    r
}

/// Every tool of the catalog requires only inputs that are among its properties.
pub proof fn lemma_required_are_properties(i: int)
    requires
        0 <= i < catalog_schemas().len(),
    ensures
        requires_properties(catalog_schemas()[i]),
{
    if i == 3 {
        assert(catalog_schemas()[3].1[1] == catalog_schemas()[3].2[0]);
    }
    if i == 4 {
        assert(catalog_schemas()[4].1[1] == catalog_schemas()[4].2[0]);
    }
    if i == 5 {
        assert(catalog_schemas()[5].1[1] == catalog_schemas()[5].2[0]);
    }
    if i == 6 {
        assert(catalog_schemas()[6].1[1] == catalog_schemas()[6].2[0]);
    }
    if i == 7 {
        assert(catalog_schemas()[7].1[0] == catalog_schemas()[7].2[0]);
    }
    if i == 8 {
        assert(catalog_schemas()[8].1[0] == catalog_schemas()[8].2[0]);
        assert(catalog_schemas()[8].1[1] == catalog_schemas()[8].2[1]);
    }
    if i == 9 {
        assert(catalog_schemas()[9].1[0] == catalog_schemas()[9].2[0]);
        assert(catalog_schemas()[9].1[1] == catalog_schemas()[9].2[1]);
    }
    if i == 10 {
        assert(catalog_schemas()[10].1[0] == catalog_schemas()[10].2[0]);
        assert(catalog_schemas()[10].1[2] == catalog_schemas()[10].2[1]);
    }
    if i == 11 {
        assert(catalog_schemas()[11].1[1] == catalog_schemas()[11].2[0]);
        assert(catalog_schemas()[11].1[0] == catalog_schemas()[11].2[1]);
    }
}

/// `reddit_submit_comment` first asks for a token with the account's password grant, then
/// posts the comment under the post named by `post_id` (as `t3_` and the id), carrying the
/// token that the first response gave.
pub proof fn lemma_submit_comment_requests(
    cfg: RedditConfig,
    args: Json,
    t: Json,
    tok: Seq<char>,
    id: Seq<char>,
    text: Seq<char>,
)
    requires
        t.at("access_token"@).str_of() == Some(tok),
        args.at("post_id"@).str_of() == Some(id),
        args.at("text"@).str_of() == Some(text),
    ensures
        handle_view(cfg, "reddit_submit_comment"@, args, seq![]) == form_view(
            "https://www.reddit.com/api/v1/access_token"@,
            www_pair("grant_type"@, "password"@) + "&"@ + www_pair("username"@, cfg.username@) + "&"@
                + www_pair("password"@, cfg.password@),
        ),
        handle_view(cfg, "reddit_submit_comment"@, args, seq![t]) == bearer_view(
            tok,
            Method::Post,
            "https://oauth.reddit.com/api/comment"@,
            Some(
                www_pair("api_type"@, "json"@) + "&"@ + www_pair("parent"@, "t3_"@ + id) + "&"@ + www_pair(
                    "text"@,
                    text,
                ),
            ),
        ),
{
    reveal_strlit("reddit_submit_comment");
    reveal_strlit("reddit_list_saved");
    assert("reddit_list_saved"@.len() == 17);
    reveal_strlit("reddit_list_upvoted");
    assert("reddit_list_upvoted"@.len() == 19);
    reveal_strlit("reddit_get_my_comments");
    assert("reddit_get_my_comments"@.len() == 22);
    reveal_strlit("reddit_search_posts");
    assert("reddit_search_posts"@.len() == 19);
    reveal_strlit("reddit_list_hot_posts");
    assert("reddit_submit_comment"@[7] != "reddit_list_hot_posts"@[7]);
    reveal_strlit("reddit_get_post_with_comments");
    assert("reddit_get_post_with_comments"@.len() == 29);
    reveal_strlit("reddit_search_subreddits");
    assert("reddit_search_subreddits"@.len() == 24);
    assert("reddit_submit_comment"@.len() == 21);
    assert(seq![t].drop_first() =~= Seq::<Json>::empty());
}

/// `reddit_reply_to_comment` posts the reply under the comment named by `comment_id` (as
/// `t1_` and the id), carrying the token that the first response gave.
pub proof fn lemma_reply_to_comment_request(
    cfg: RedditConfig,
    args: Json,
    t: Json,
    tok: Seq<char>,
    id: Seq<char>,
    text: Seq<char>,
)
    requires
        t.at("access_token"@).str_of() == Some(tok),
        args.at("comment_id"@).str_of() == Some(id),
        args.at("text"@).str_of() == Some(text),
    ensures
        handle_view(cfg, "reddit_reply_to_comment"@, args, seq![t]) == bearer_view(
            tok,
            Method::Post,
            "https://oauth.reddit.com/api/comment"@,
            Some(
                www_pair("api_type"@, "json"@) + "&"@ + www_pair("parent"@, "t1_"@ + id) + "&"@ + www_pair(
                    "text"@,
                    text,
                ),
            ),
        ),
{
    reveal_strlit("reddit_reply_to_comment");
    reveal_strlit("reddit_list_saved");
    assert("reddit_list_saved"@.len() == 17);
    reveal_strlit("reddit_list_upvoted");
    assert("reddit_list_upvoted"@.len() == 19);
    reveal_strlit("reddit_get_my_comments");
    assert("reddit_get_my_comments"@.len() == 22);
    reveal_strlit("reddit_search_posts");
    assert("reddit_search_posts"@.len() == 19);
    reveal_strlit("reddit_list_hot_posts");
    assert("reddit_list_hot_posts"@.len() == 21);
    reveal_strlit("reddit_get_post_with_comments");
    assert("reddit_get_post_with_comments"@.len() == 29);
    reveal_strlit("reddit_search_subreddits");
    assert("reddit_search_subreddits"@.len() == 24);
    reveal_strlit("reddit_submit_comment");
    assert("reddit_submit_comment"@.len() == 21);
    assert("reddit_reply_to_comment"@.len() == 23);
    assert(seq![t].drop_first() =~= Seq::<Json>::empty());
}

} // verus!
