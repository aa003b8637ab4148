use osmozzz::connectors::{
    n8n, notion, posthog, railway, reddit, render, resend, sentry, shopify, slack, stripe, supabase, twilio,
    vercel,
};
use osmozzz::http::Step;
use osmozzz::json::Json;
use serde_json::Value;

/// The tool names of a catalog, each entry checked to have a description and an object schema.
fn names(catalog: &str) -> Vec<String> {
    let v: Value = serde_json::from_str(catalog).expect("the catalog is JSON");
    let tools = v.as_array().expect("the catalog is an array");
    assert!(!tools.is_empty());
    tools
        .iter()
        .map(|t| {
            assert!(t["description"].as_str().is_some());
            assert_eq!(t["inputSchema"]["type"].as_str(), Some("object"));
            t["name"].as_str().expect("each tool has a name").to_string()
        })
        .collect()
}

fn empty() -> Json {
    Json::Object(vec![])
}

/// The tool is one that `handle` knows: its first step is a request or an error other than the
/// unknown-tool one.
fn known(step: Step, unknown: &str) -> bool {
    match step {
        Step::Send(_) => true,
        Step::Done(Ok(_)) => true,
        Step::Done(Err(e)) => !e.starts_with(unknown),
    }
}

#[test]
fn catalog_names_are_unique_and_prefixed() {
    let catalogs = [
        ("n8n_", n8n::tools()),
        ("notion_", notion::tools()),
        ("posthog_", posthog::tools()),
        ("railway_", railway::tools()),
        ("reddit_", reddit::tools()),
        ("render_", render::tools()),
        ("resend_", resend::tools()),
        ("sentry_", sentry::tools()),
        ("shopify_", shopify::tools()),
        ("slack_", slack::tools()),
        ("stripe_", stripe::tools()),
        ("supabase_", supabase::tools()),
        ("twilio_", twilio::tools()),
        ("vercel_", vercel::tools()),
    ];
    for (prefix, catalog) in catalogs {
        let ns = names(&catalog);
        for (i, n) in ns.iter().enumerate() {
            assert!(n.starts_with(prefix), "{n}");
            assert!(!ns[..i].contains(n), "{n} listed twice");
        }
    }
}

#[test]
fn every_catalog_tool_is_handled() {
    let none: Vec<Json> = vec![];
    for n in names(&n8n::tools()) {
        let cfg = n8n::N8nConfig { api_url: "https://n".to_string(), api_key: "k".to_string() };
        assert!(known(n8n::handle(&cfg, &n, &empty(), &none), "Tool n8n inconnu"), "{n}");
    }
    for n in names(&notion::tools()) {
        let cfg = notion::NotionConfig { token: "t".to_string() };
        assert!(known(notion::handle(&cfg, &n, &empty(), &none), "Tool Notion inconnu"), "{n}");
    }
    for n in names(&posthog::tools()) {
        let cfg = posthog::PosthogConfig { api_key: "k".to_string(), project_id: "1".to_string(), host: posthog::default_host() };
        assert!(known(posthog::handle(&cfg, &n, &empty(), &none), "Unknown PostHog tool"), "{n}");
    }
    for n in names(&railway::tools()) {
        if n == "railway_get_usage" {
            continue;
        }
        let cfg = railway::RailwayConfig { token: "t".to_string() };
        assert!(known(railway::handle(&cfg, &n, &empty(), &none), "Unknown railway tool"), "{n}");
    }
    for n in names(&reddit::tools()) {
        if n == "reddit_get_subreddit_info" {
            continue;
        }
        let cfg = reddit::RedditConfig {
            client_id: "c".to_string(),
            client_secret: "s".to_string(),
            username: "u".to_string(),
            password: "p".to_string(),
        };
        let token = vec![Json::Object(vec![("access_token".to_string(), Json::Str("t".to_string()))])];
        assert!(known(reddit::handle(&cfg, &n, &empty(), &token), "Tool Reddit inconnu"), "{n}");
    }
    for n in names(&render::tools()) {
        let cfg = render::RenderConfig { token: "t".to_string() };
        assert!(known(render::handle(&cfg, &n, &empty(), &none), "Unknown render tool"), "{n}");
    }
    for n in names(&resend::tools()) {
        let cfg = resend::ResendConfig { api_key: "k".to_string() };
        assert!(known(resend::handle(&cfg, &n, &empty(), &none), "Tool Resend inconnu"), "{n}");
    }
    for n in names(&sentry::tools()) {
        if n == "sentry_get_trace_details" {
            continue;
        }
        let cfg = sentry::SentryConfig { token: "t".to_string(), host: None };
        assert!(known(sentry::handle(&cfg, &n, &empty(), &none), "Tool Sentry inconnu"), "{n}");
    }
    for n in names(&shopify::tools()) {
        if matches!(n.as_str(), "shopify_list_products" | "shopify_create_draft_order") {
            continue;
        }
        let cfg = shopify::ShopifyConfig { shop_domain: "s.myshopify.com".to_string(), access_token: "t".to_string() };
        assert!(known(shopify::handle(&cfg, &n, &empty(), &none), "Tool Shopify inconnu"), "{n}");
    }
    for n in names(&slack::tools()) {
        let cfg = slack::SlackConfig { token: "t".to_string(), team_id: None };
        assert!(known(slack::handle(&cfg, &n, &empty(), &none), "Tool Slack inconnu"), "{n}");
    }
    for n in names(&stripe::tools()) {
        if matches!(
            n.as_str(),
            "stripe_get_balance"
                | "stripe_get_customer"
                | "stripe_list_payment_intents"
                | "stripe_get_payment_intent"
                | "stripe_get_subscription"
                | "stripe_list_invoices"
                | "stripe_get_invoice"
                | "stripe_delete_webhook"
                | "stripe_list_payouts"
                | "stripe_get_payout"
                | "stripe_list_prices"
                | "stripe_create_price"
        ) {
            continue;
        }
        let cfg = stripe::StripeConfig { secret_key: "k".to_string() };
        assert!(known(stripe::handle(&cfg, &n, &empty(), 0, &none), "Unknown stripe tool"), "{n}");
    }
    for n in names(&supabase::tools()) {
        if n == "supabase_get_cost" {
            continue;
        }
        let cfg = supabase::SupabaseConfig { access_token: "t".to_string(), project_id: Some("p".to_string()) };
        assert!(known(supabase::handle(&cfg, &n, &empty(), &none), "Tool Supabase inconnu"), "{n}");
    }
    for n in names(&twilio::tools()) {
        let cfg = twilio::TwilioConfig { account_sid: "AC".to_string(), auth_token: "t".to_string(), from_number: None };
        assert!(known(twilio::handle(&cfg, &n, &empty(), &none), "Unknown twilio tool"), "{n}");
    }
    for n in names(&vercel::tools()) {
        let cfg = vercel::VercelConfig { token: "t".to_string(), team_id: None };
        assert!(known(vercel::handle(&cfg, &n, &empty(), &none), "Unknown vercel tool"), "{n}");
    }
}

/// The catalog text lists the tools of `names` in order, each with the property and required
/// names of `schemas`.
fn catalog_matches(catalog: &str, names: Vec<&'static str>, schemas: Vec<(&'static str, Vec<&'static str>, Vec<&'static str>)>) {
    let v: Value = serde_json::from_str(catalog).expect("the catalog is JSON");
    let tools = v.as_array().expect("the catalog is an array");
    assert_eq!(tools.len(), names.len());
    assert_eq!(tools.len(), schemas.len());
    for (k, t) in tools.iter().enumerate() {
        let name = t["name"].as_str().unwrap();
        assert_eq!(name, names[k]);
        assert_eq!(name, schemas[k].0);
        let props: Vec<&str> = match t["inputSchema"]["properties"].as_object() {
            Some(m) => m.keys().map(|s| s.as_str()).collect(),
            None => vec![],
        };
        assert_eq!(props, schemas[k].1, "{name}");
        let required: Vec<&str> = match t["inputSchema"]["required"].as_array() {
            Some(a) => a.iter().map(|s| s.as_str().unwrap()).collect(),
            None => vec![],
        };
        assert_eq!(required, schemas[k].2, "{name}");
        for r in &required {
            assert!(props.contains(r), "{name} requires {r}");
        }
    }
}

#[test]
fn catalogs_match_their_name_and_schema_lists() {
    catalog_matches(&n8n::tools(), n8n::tool_names(), n8n::tool_schemas());
    catalog_matches(&notion::tools(), notion::tool_names(), notion::tool_schemas());
    catalog_matches(&posthog::tools(), posthog::tool_names(), posthog::tool_schemas());
    catalog_matches(&railway::tools(), railway::tool_names(), railway::tool_schemas());
    catalog_matches(&reddit::tools(), reddit::tool_names(), reddit::tool_schemas());
    catalog_matches(&render::tools(), render::tool_names(), render::tool_schemas());
    catalog_matches(&resend::tools(), resend::tool_names(), resend::tool_schemas());
    catalog_matches(&sentry::tools(), sentry::tool_names(), sentry::tool_schemas());
    catalog_matches(&shopify::tools(), shopify::tool_names(), shopify::tool_schemas());
    catalog_matches(&slack::tools(), slack::tool_names(), slack::tool_schemas());
    catalog_matches(&stripe::tools(), stripe::tool_names(), stripe::tool_schemas());
    catalog_matches(&supabase::tools(), supabase::tool_names(), supabase::tool_schemas());
    catalog_matches(&twilio::tools(), twilio::tool_names(), twilio::tool_schemas());
    catalog_matches(&vercel::tools(), vercel::tool_names(), vercel::tool_schemas());
}

#[test]
fn names_outside_the_catalog_are_unknown_tools() {
    let none: Vec<Json> = vec![];
    let cfg = vercel::VercelConfig { token: "t".to_string(), team_id: None };
    match vercel::handle(&cfg, "vercel_list_envs", &empty(), &none) {
        Step::Done(Err(e)) => assert_eq!(e, "Unknown vercel tool: vercel_list_envs"),
        _ => panic!("expected the unknown-tool error"),
    }
    let cfg = render::RenderConfig { token: "t".to_string() };
    let args = Json::Object(vec![("service_id".to_string(), Json::Str("s".to_string()))]);
    match render::handle(&cfg, "render_nothing", &args, &none) {
        Step::Done(Err(e)) => assert_eq!(e, "Unknown render tool: render_nothing"),
        _ => panic!("expected the unknown-tool error"),
    }
}
