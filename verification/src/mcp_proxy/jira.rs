//! Jira through `@aashari/mcp-server-atlassian-jira`.
use vstd::prelude::*;
use super::LazyProxy;
use crate::text::{owned, str_chars, string_of_chars};

verus! {

/// Jira site, account and API token (`~/.osmozzz/jira.toml`).
pub struct JiraConfig {
    pub base_url: String,
    pub email: String,
    pub token: String,
}

/// `s` with every leading repetition of the non-empty `p` removed (std `trim_start_matches`
/// with a string pattern).
pub open spec fn trim_prefix_spec(s: Seq<char>, p: Seq<char>) -> Seq<char>
    decreases s.len(),
{
    if p.len() > 0 && p.len() <= s.len() && s.take(p.len() as int) == p {
        trim_prefix_spec(s.skip(p.len() as int), p)
    } else {
        s
    }
}

/// The part of `s` before its first `.` (all of `s` when there is none).
pub open spec fn before_dot(s: Seq<char>) -> Seq<char>
    decreases s.len(),
{
    if s.len() == 0 {
        s
    } else if s[0] == '.' {
        seq![]
    } else {
        seq![s[0]] + before_dot(s.drop_first())
    }
}

/// The Atlassian site name of a base URL: without its scheme, up to the first `.`
/// (`https://foo.atlassian.net` gives `foo`).
pub open spec fn site_name_spec(base_url: Seq<char>) -> Seq<char> {
    before_dot(trim_prefix_spec(trim_prefix_spec(base_url, "https://"@), "http://"@))
}

fn starts_with_at(s: &Vec<char>, start: usize, p: &Vec<char>) -> (r: bool)
    requires
        start <= s@.len(),
    ensures
        r == (p@.len() <= s@.len() - start && s@.subrange(start as int, start + p@.len()) == p@),
{
    let n = p.len();
    if n > s.len() - start {
        return false;
    }
    for i in 0..n
        invariant
            n == p@.len(),
            start + n <= s@.len(),
            s@.len() <= usize::MAX,
            forall|j: int| 0 <= j < i ==> s@[start + j] == p@[j],
    {
        if s[start + i] != p[i] {
            assert(s@.subrange(start as int, start + n)[i as int] != p@[i as int]);
            return false;
        }
    }
    assert(s@.subrange(start as int, start + n) == p@);
    true
}

proof fn lemma_trim_prefix_step(s: Seq<char>, p: Seq<char>, k: int)
    requires
        0 <= k <= s.len(),
        p.len() > 0,
        p.len() <= s.len() - k,
        s.subrange(k, k + p.len()) == p,
    ensures
        trim_prefix_spec(s.skip(k), p) == trim_prefix_spec(s.skip(k + p.len()), p),
{
    assert(s.skip(k).take(p.len() as int) == s.subrange(k, k + p.len()));
    assert(s.skip(k).skip(p.len() as int) == s.skip(k + p.len()));
}

fn trim_prefix(s: &Vec<char>, p: &Vec<char>) -> (r: Vec<char>)
    requires
        p@.len() > 0,
    ensures
        r@ == trim_prefix_spec(s@, p@),
{
    let mut k: usize = 0;
    let _len = s.len();
    assert(s@.skip(0) == s@);
    while starts_with_at(s, k, p)
        invariant
            k <= s@.len(),
            s@.len() <= usize::MAX,
            p@.len() > 0,
            trim_prefix_spec(s@, p@) == trim_prefix_spec(s@.skip(k as int), p@),
        decreases s@.len() - k,
    {
        proof {
            lemma_trim_prefix_step(s@, p@, k as int);
        }
        k = k + p.len();
    }
    proof {
        let t = s@.skip(k as int);
        if p@.len() <= t.len() {
            assert(t.take(p@.len() as int) == s@.subrange(k as int, k + p@.len()));
        }
    }
    let mut r: Vec<char> = Vec::new();
    let n = s.len();
    let mut i = k;
    while i < n
        invariant
            n == s@.len(),
            k <= i <= n,
            r@ == s@.subrange(k as int, i as int),
        decreases n - i,
    {
        r.push(s[i]);
        assert(s@.subrange(k as int, i + 1) == s@.subrange(k as int, i as int).push(s@[i as int]));
        i = i + 1;
    }
    assert(s@.subrange(k as int, n as int) == s@.skip(k as int));
    r
}

proof fn lemma_before_dot(s: Seq<char>, k: int)
    requires
        0 <= k <= s.len(),
        forall|j: int| 0 <= j < k ==> s[j] != '.',
        k == s.len() || s[k] == '.',
    ensures
        before_dot(s) == s.take(k),
    decreases k,
{
    if k == 0 {
        if s.len() == 0 {
            assert(s.take(0) == s);
        }
    } else {
        lemma_before_dot(s.drop_first(), k - 1);
        assert(seq![s[0]] + s.drop_first().take(k - 1) == s.take(k));
    }
}

/// The Atlassian site name of a base URL (see [`site_name_spec`]).
pub fn site_name(base_url: &str) -> (r: String)
    ensures
        r@ == site_name_spec(base_url@),
{
    let https = str_chars("https://");
    let http = str_chars("http://");
    proof {
        reveal_strlit("https://");
        reveal_strlit("http://");
    }
    let t = trim_prefix(&trim_prefix(&str_chars(base_url), &https), &http);
    let n = t.len();
    let mut k: usize = 0;
    while k < n && t[k] != '.'
        invariant
            n == t@.len(),
            k <= n,
            forall|j: int| 0 <= j < k ==> t@[j] != '.',
        decreases n - k,
    {
        k = k + 1;
    }
    proof {
        lemma_before_dot(t@, k as int);
    }
    let mut head: Vec<char> = Vec::new();
    for i in 0..k
        invariant
            k <= n,
            n == t@.len(),
            head@ == t@.take(i as int),
    {
        head.push(t[i]);
        assert(t@.take(i + 1) == t@.take(i as int).push(t@[i as int]));
    }
    string_of_chars(&head)
}

/// The proxy for Jira: site name, account e-mail and API token in the `ATLASSIAN_*`
/// variables.
pub fn lazy(cfg: JiraConfig) -> (p: LazyProxy)
    ensures
        p.name@ == "jira"@,
        p.package@ == "@aashari/mcp-server-atlassian-jira"@,
        p.env_vars@.len() == 3,
        p.env_vars@[0].0@ == "ATLASSIAN_SITE_NAME"@,
        p.env_vars@[0].1@ == site_name_spec(cfg.base_url@),
        p.env_vars@[1].0@ == "ATLASSIAN_USER_EMAIL"@,
        p.env_vars@[1].1@ == cfg.email@,
        p.env_vars@[2].0@ == "ATLASSIAN_API_TOKEN"@,
        p.env_vars@[2].1@ == cfg.token@,
        p.extra_args@.len() == 0,
{
    let site = site_name(cfg.base_url.as_str());
    let mut env: Vec<(String, String)> = Vec::new();
    env.push((owned("ATLASSIAN_SITE_NAME"), site));
    env.push((owned("ATLASSIAN_USER_EMAIL"), cfg.email));
    env.push((owned("ATLASSIAN_API_TOKEN"), cfg.token));
    LazyProxy::new("jira", "@aashari/mcp-server-atlassian-jira", env)
}

} // verus!
