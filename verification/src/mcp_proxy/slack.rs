//! Slack through `@modelcontextprotocol/server-slack`.
use vstd::prelude::*;
use super::LazyProxy;
use crate::text::owned;

verus! {

/// Slack bot token and team (`~/.osmozzz/slack.toml`).
pub struct SlackConfig {
    pub token: String,
    pub team_id: String,
}

/// The proxy for Slack: the token in `SLACK_BOT_TOKEN`, the team in `SLACK_TEAM_ID`.
pub fn lazy(cfg: SlackConfig) -> (p: LazyProxy)
    ensures
        p.name@ == "slack"@,
        p.package@ == "@modelcontextprotocol/server-slack"@,
        p.env_vars@.len() == 2,
        p.env_vars@[0].0@ == "SLACK_BOT_TOKEN"@,
        p.env_vars@[0].1@ == cfg.token@,
        p.env_vars@[1].0@ == "SLACK_TEAM_ID"@,
        p.env_vars@[1].1@ == cfg.team_id@,
        p.extra_args@.len() == 0,
{
    let mut env: Vec<(String, String)> = Vec::new();
    env.push((owned("SLACK_BOT_TOKEN"), cfg.token));
    env.push((owned("SLACK_TEAM_ID"), cfg.team_id));
    LazyProxy::new("slack", "@modelcontextprotocol/server-slack", env)
}

} // verus!
