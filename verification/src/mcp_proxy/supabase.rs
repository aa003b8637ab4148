//! Supabase through `@supabase/mcp-server-supabase`.
use vstd::prelude::*;
use super::LazyProxy;
use crate::text::owned;

verus! {

/// Supabase access token and optional project (`~/.osmozzz/supabase.toml`).
pub struct SupabaseConfig {
    pub access_token: String,
    pub project_id: Option<String>,
}

/// The proxy for Supabase: the token in `SUPABASE_ACCESS_TOKEN`, and the project in
/// `SUPABASE_PROJECT_REF` when one is set.
pub fn lazy(cfg: SupabaseConfig) -> (p: LazyProxy)
    ensures
        p.name@ == "supabase"@,
        p.package@ == "@supabase/mcp-server-supabase"@,
        p.env_vars@.len() == if cfg.project_id is Some { 2int } else { 1int },
        p.env_vars@[0].0@ == "SUPABASE_ACCESS_TOKEN"@,
        p.env_vars@[0].1@ == cfg.access_token@,
        cfg.project_id matches Some(pid) ==> p.env_vars@[1].0@ == "SUPABASE_PROJECT_REF"@
            && p.env_vars@[1].1@ == pid@,
        p.extra_args@.len() == 0,
{
    let ghost pid_view = cfg.project_id;
    let mut env: Vec<(String, String)> = Vec::new();
    env.push((owned("SUPABASE_ACCESS_TOKEN"), cfg.access_token));
    match cfg.project_id {
        Some(pid) => env.push((owned("SUPABASE_PROJECT_REF"), pid)),
        None => {},
    }
    LazyProxy::new("supabase", "@supabase/mcp-server-supabase", env)
}

} // verus!
