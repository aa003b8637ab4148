//! GitHub through `@modelcontextprotocol/server-github`.
use vstd::prelude::*;
use super::LazyProxy;
use crate::text::owned;

verus! {

/// GitHub token (`~/.osmozzz/github.toml`).
pub struct GithubConfig {
    pub token: String,
}

/// The proxy for GitHub: the token in `GITHUB_PERSONAL_ACCESS_TOKEN`.
pub fn lazy(cfg: GithubConfig) -> (p: LazyProxy)
    ensures
        p.name@ == "github"@,
        p.package@ == "@modelcontextprotocol/server-github"@,
        p.env_vars@.len() == 1,
        p.env_vars@[0].0@ == "GITHUB_PERSONAL_ACCESS_TOKEN"@,
        p.env_vars@[0].1@ == cfg.token@,
        p.extra_args@.len() == 0,
{
    let mut env: Vec<(String, String)> = Vec::new();
    env.push((owned("GITHUB_PERSONAL_ACCESS_TOKEN"), cfg.token));
    LazyProxy::new("github", "@modelcontextprotocol/server-github", env)
}

} // verus!
