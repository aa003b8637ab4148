//! Cloudflare through `@cloudflare/mcp-server-cloudflare`.
use vstd::prelude::*;
use super::LazyProxy;
use crate::text::owned;

verus! {

/// Cloudflare API token and account (`~/.osmozzz/cloudflare.toml`).
pub struct CloudflareConfig {
    pub api_token: String,
    pub account_id: String,
}

/// The proxy for Cloudflare: the token in `CLOUDFLARE_API_TOKEN`, run for the account.
pub fn lazy(cfg: CloudflareConfig) -> (p: LazyProxy)
    ensures
        p.name@ == "cloudflare"@,
        p.package@ == "@cloudflare/mcp-server-cloudflare"@,
        p.env_vars@.len() == 1,
        p.env_vars@[0].0@ == "CLOUDFLARE_API_TOKEN"@,
        p.env_vars@[0].1@ == cfg.api_token@,
        p.extra_args@.len() == 2,
        p.extra_args@[0]@ == "run"@,
        p.extra_args@[1]@ == cfg.account_id@,
{
    let mut env: Vec<(String, String)> = Vec::new();
    env.push((owned("CLOUDFLARE_API_TOKEN"), cfg.api_token));
    let mut args: Vec<String> = Vec::new();
    args.push(owned("run"));
    args.push(cfg.account_id);
    LazyProxy::new_with_args("cloudflare", "@cloudflare/mcp-server-cloudflare", env, args)
}

} // verus!
