//! Sentry through `@sentry/mcp-server`.
use vstd::prelude::*;
use super::LazyProxy;
use crate::text::{owned, push_str};

verus! {

/// Sentry token and optional host (`~/.osmozzz/sentry.toml`).
pub struct SentryConfig {
    pub token: String,
    pub host: Option<String>,
}

/// The proxy for Sentry: `--access-token=…`, and `--host=…` when a host is set.
pub fn lazy(cfg: SentryConfig) -> (p: LazyProxy)
    ensures
        p.name@ == "sentry"@,
        p.package@ == "@sentry/mcp-server"@,
        p.env_vars@.len() == 0,
        p.extra_args@.len() == if cfg.host is Some { 2int } else { 1int },
        p.extra_args@[0]@ == "--access-token="@ + cfg.token@,
        cfg.host matches Some(h) ==> p.extra_args@[1]@ == "--host="@ + h@,
{
    let mut args: Vec<String> = Vec::new();
    let mut token_arg = owned("--access-token=");
    push_str(&mut token_arg, cfg.token.as_str());
    args.push(token_arg);
    match &cfg.host {
        Some(h) => {
            let mut host_arg = owned("--host=");
            push_str(&mut host_arg, h.as_str());
            args.push(host_arg);
        },
        None => {},
    }
    LazyProxy::new_with_args("sentry", "@sentry/mcp-server", Vec::new(), args)
}

} // verus!
