//! Linear through `@tacticlaunch/mcp-linear`, started at once rather than on first use.
use vstd::prelude::*;
use super::LazyProxy;
use crate::text::owned;

verus! {

/// Linear API key (`~/.osmozzz/linear.toml`).
pub struct LinearConfig {
    pub api_key: String,
}

/// What the Linear subprocess is started with: the key in `LINEAR_API_TOKEN`.
pub fn start(cfg: LinearConfig) -> (p: LazyProxy)
    ensures
        p.name@ == "linear"@,
        p.package@ == "@tacticlaunch/mcp-linear"@,
        p.env_vars@.len() == 1,
        p.env_vars@[0].0@ == "LINEAR_API_TOKEN"@,
        p.env_vars@[0].1@ == cfg.api_key@,
        p.extra_args@.len() == 0,
{
    let mut env: Vec<(String, String)> = Vec::new();
    env.push((owned("LINEAR_API_TOKEN"), cfg.api_key));
    LazyProxy::new("linear", "@tacticlaunch/mcp-linear", env)
}

} // verus!
