//! GitLab through `@zereight/mcp-gitlab`.
use vstd::prelude::*;
use super::LazyProxy;
use crate::text::{owned, push_chars, push_str, str_chars, trim_end_char, trim_end_spec};

verus! {

/// GitLab token and instance (`~/.osmozzz/gitlab.toml`); the instance defaults to
/// `https://gitlab.com`.
pub struct GitlabConfig {
    pub token: String,
    pub base_url: String,
}

/// The API URL of a GitLab instance: its URL without trailing slashes, then `/api/v4`.
pub fn api_url(base_url: &str) -> (r: String)
    ensures
        r@ == trim_end_spec(base_url@, '/') + "/api/v4"@,
{
    let mut out = String::new();
    push_chars(&mut out, &trim_end_char(&str_chars(base_url), '/'));
    push_str(&mut out, "/api/v4");
    assert(Seq::<char>::empty() + trim_end_spec(base_url@, '/') == trim_end_spec(base_url@, '/'));
    out
}

/// The proxy for GitLab: the token in `GITLAB_PERSONAL_ACCESS_TOKEN`, the API URL in
/// `GITLAB_API_URL`.
pub fn lazy(cfg: GitlabConfig) -> (p: LazyProxy)
    ensures
        p.name@ == "gitlab"@,
        p.package@ == "@zereight/mcp-gitlab"@,
        p.env_vars@.len() == 2,
        p.env_vars@[0].0@ == "GITLAB_PERSONAL_ACCESS_TOKEN"@,
        p.env_vars@[0].1@ == cfg.token@,
        p.env_vars@[1].0@ == "GITLAB_API_URL"@,
        p.env_vars@[1].1@ == trim_end_spec(cfg.base_url@, '/') + "/api/v4"@,
        p.extra_args@.len() == 0,
{
    let url = api_url(cfg.base_url.as_str());
    let mut env: Vec<(String, String)> = Vec::new();
    env.push((owned("GITLAB_PERSONAL_ACCESS_TOKEN"), cfg.token));
    env.push((owned("GITLAB_API_URL"), url));
    LazyProxy::new("gitlab", "@zereight/mcp-gitlab", env)
}

} // verus!
