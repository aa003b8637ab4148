//! Notion through `@notionhq/notion-mcp-server`.
use vstd::prelude::*;
use super::LazyProxy;
use crate::text::{owned, push_str};

verus! {

/// Notion integration token (`~/.osmozzz/notion.toml`).
pub struct NotionConfig {
    pub token: String,
}

/// The OpenAPI headers the Notion server is given: the bearer token and the API version.
pub open spec fn headers_text(token: Seq<char>) -> Seq<char> {
    "{\"Authorization\": \"Bearer "@ + token + "\", \"Notion-Version\": \"2022-06-28\"}"@
}

/// The proxy for Notion: the headers in `OPENAPI_MCP_HEADERS`.
pub fn lazy(cfg: NotionConfig) -> (p: LazyProxy)
    ensures
        p.name@ == "notion"@,
        p.package@ == "@notionhq/notion-mcp-server"@,
        p.env_vars@.len() == 1,
        p.env_vars@[0].0@ == "OPENAPI_MCP_HEADERS"@,
        p.env_vars@[0].1@ == headers_text(cfg.token@),
        p.extra_args@.len() == 0,
{
    let mut headers = owned("{\"Authorization\": \"Bearer ");
    push_str(&mut headers, cfg.token.as_str());
    push_str(&mut headers, "\", \"Notion-Version\": \"2022-06-28\"}");
    let mut env: Vec<(String, String)> = Vec::new();
    env.push((owned("OPENAPI_MCP_HEADERS"), headers));
    LazyProxy::new("notion", "@notionhq/notion-mcp-server", env)
}

} // verus!
