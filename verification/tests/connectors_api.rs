use osmozzz::connectors::{notion, reddit, sentry, shopify, stripe, supabase};
use osmozzz::http::{HttpRequest, Method, Step};
use osmozzz::json::Json;

fn s(x: &str) -> Json {
    Json::Str(x.to_string())
}

fn obj(pairs: Vec<(&str, Json)>) -> Json {
    Json::Object(pairs.into_iter().map(|(k, v)| (k.to_string(), v)).collect())
}

fn arr(items: Vec<Json>) -> Json {
    Json::Array(items)
}

fn req(st: Step) -> HttpRequest {
    match st {
        Step::Send(r) => r,
        Step::Done(x) => panic!("expected a request, got {:?}", x),
    }
}

fn done(st: Step) -> Result<String, String> {
    match st {
        Step::Done(x) => x,
        Step::Send(r) => panic!("expected an outcome, got a request to {}", r.url),
    }
}

// ─── Notion ──────────────────────────────────────────────────────────────────

fn notion_cfg() -> notion::NotionConfig {
    notion::NotionConfig { token: "secret".to_string() }
}

#[test]
fn notion_get_page_requests_the_page() {
    let args = obj(vec![("page_id", s("abc"))]);
    let r = req(notion::handle(&notion_cfg(), "notion_get_page", &args, &vec![]));
    assert!(matches!(r.method, Method::Get));
    assert_eq!(r.url, "https://api.notion.com/v1/pages/abc");
    assert!(r.body.is_none());
    assert!(r.authenticated);
}

#[test]
fn notion_get_page_renders_the_page() {
    let page = obj(vec![
        ("id", s("abc")),
        ("url", s("https://n/abc")),
        ("archived", Json::Bool(false)),
        ("created_time", s("2024-01-01")),
        ("last_edited_time", s("2024-01-02")),
        ("parent", obj(vec![("type", s("workspace"))])),
        (
            "properties",
            obj(vec![(
                "Name",
                obj(vec![("type", s("title")), ("title", arr(vec![obj(vec![("plain_text", s("Hello"))])]))]),
            )]),
        ),
    ]);
    let args = obj(vec![("page_id", s("abc"))]);
    let out = done(notion::handle(&notion_cfg(), "notion_get_page", &args, &vec![page]));
    assert_eq!(
        out,
        Ok("Page Notion\nID         : abc\nTitre      : Hello\nParent     : workspace / workspace\nArchivé    : false\nURL        : https://n/abc\nCréée le   : 2024-01-01\nModifiée   : 2024-01-02".to_string())
    );
}

#[test]
fn notion_missing_argument_is_reported() {
    let out = done(notion::handle(&notion_cfg(), "notion_get_page", &obj(vec![]), &vec![]));
    assert_eq!(out, Err("Paramètre 'page_id' requis".to_string()));
}

#[test]
fn notion_one_response_ends_every_tool() {
    for name in ["notion_search", "notion_get_database", "notion_get_self", "notion_unknown"] {
        let args = obj(vec![("database_id", s("d"))]);
        let st = notion::handle(&notion_cfg(), name, &args, &vec![Json::Null]);
        assert!(matches!(st, Step::Done(_)));
    }
}

#[test]
fn notion_block_children_query() {
    let args = obj(vec![("block_id", s("b1")), ("page_size", Json::PosInt(500)), ("start_cursor", s("c9"))]);
    let r = req(notion::handle(&notion_cfg(), "notion_get_block_children", &args, &vec![]));
    assert_eq!(r.url, "https://api.notion.com/v1/blocks/b1/children?&page_size=100&start_cursor=c9");
}

// ─── Sentry ──────────────────────────────────────────────────────────────────

fn sentry_cfg(host: Option<&str>) -> sentry::SentryConfig {
    sentry::SentryConfig { token: "t".to_string(), host: host.map(|h| h.to_string()) }
}

#[test]
fn sentry_urls_end_with_a_slash() {
    let r = req(sentry::handle(&sentry_cfg(None), "sentry_find_organizations", &obj(vec![]), &vec![]));
    assert_eq!(r.url, "https://sentry.io/api/0/organizations/");
    let r = req(sentry::handle(&sentry_cfg(Some("https://s.example.com/")), "sentry_whoami", &obj(vec![]), &vec![]));
    assert_eq!(r.url, "https://s.example.com/api/0/users/me/");
    let r = req(sentry::handle(&sentry_cfg(Some("")), "sentry_whoami", &obj(vec![]), &vec![]));
    assert_eq!(r.url, "https://sentry.io/api/0/users/me/");
}

#[test]
fn sentry_lists_organizations() {
    let orgs = arr(vec![obj(vec![
        ("slug", s("acme")),
        ("name", s("Acme")),
        ("status", obj(vec![("name", s("active"))])),
        ("dateCreated", s("d")),
    ])]);
    let out = done(sentry::handle(&sentry_cfg(None), "sentry_find_organizations", &obj(vec![]), &vec![orgs]));
    assert_eq!(out, Ok("1 organisation(s) :\n• [acme] Acme — statut: active — créé: d".to_string()));
    let out = done(sentry::handle(&sentry_cfg(None), "sentry_find_organizations", &obj(vec![]), &vec![arr(vec![])]));
    assert_eq!(out, Ok("Aucune organisation Sentry trouvée.".to_string()));
}

#[test]
fn sentry_search_issues_encodes_the_query() {
    let args = obj(vec![("org_slug", s("acme")), ("query", s("is:unresolved level:error"))]);
    let r = req(sentry::handle(&sentry_cfg(None), "sentry_search_issues", &args, &vec![]));
    assert_eq!(
        r.url,
        "https://sentry.io/api/0/organizations/acme/issues/?query=is%3Aunresolved%20level%3Aerror&limit=25"
    );
}

#[test]
fn sentry_update_issue_needs_a_field_and_sorts_the_body() {
    let out = done(sentry::handle(&sentry_cfg(None), "sentry_update_issue", &obj(vec![("issue_id", s("1"))]), &vec![]));
    assert_eq!(out, Err("Au moins un paramètre de mise à jour est requis".to_string()));
    let args = obj(vec![("issue_id", s("1")), ("status", s("resolved")), ("hasSeen", Json::Bool(true))]);
    let r = req(sentry::handle(&sentry_cfg(None), "sentry_update_issue", &args, &vec![]));
    assert!(matches!(r.method, Method::Put));
    assert_eq!(r.body, Some("{\"hasSeen\":true,\"status\":\"resolved\"}".to_string()));
}

#[test]
fn sentry_issue_details_reads_the_issue_then_its_latest_event() {
    let args = obj(vec![("issue_id", s("42"))]);
    let cfg = sentry_cfg(None);
    let r = req(sentry::handle(&cfg, "sentry_get_issue_details", &args, &vec![]));
    assert_eq!(r.url, "https://sentry.io/api/0/issues/42/");
    let issue = obj(vec![
        ("title", s("T")),
        ("status", s("unresolved")),
        ("level", s("error")),
        ("count", s("5")),
        ("firstSeen", s("f")),
        ("lastSeen", s("l")),
    ]);
    let r = req(sentry::handle(&cfg, "sentry_get_issue_details", &args, &vec![obj(vec![])]));
    assert_eq!(r.url, "https://sentry.io/api/0/issues/42/events/latest/");
    let frame = |f: &str, l: u64, func: &str| {
        obj(vec![("filename", s(f)), ("lineNo", Json::PosInt(l)), ("function", s(func))])
    };
    let event = obj(vec![(
        "entries",
        arr(vec![
            obj(vec![("type", s("message"))]),
            obj(vec![
                ("type", s("exception")),
                (
                    "data",
                    obj(vec![(
                        "values",
                        arr(vec![obj(vec![
                            ("type", s("ValueError")),
                            ("value", s("bad")),
                            ("stacktrace", obj(vec![("frames", arr(vec![frame("a.py", 1, "f"), frame("b.py", 2, "g")]))])),
                        ])]),
                    )]),
                ),
            ]),
        ]),
    )]);
    let out = done(sentry::handle(&cfg, "sentry_get_issue_details", &args, &vec![issue, event]));
    assert_eq!(
        out,
        Ok("Issue 42 — T\nStatut: unresolved | Level: error | Assigné: non assigné\nOccurrences: 5 | Première: f | Dernière: l\n\nValueError: bad\nStacktrace (top 8 frames):\n  b.py:2 in g\n  a.py:1 in f".to_string())
    );
}

#[test]
fn sentry_docs_need_no_request() {
    let out = done(sentry::handle(&sentry_cfg(None), "sentry_get_doc", &obj(vec![("path", s("/platforms/python"))]), &vec![]));
    assert_eq!(
        out,
        Ok("Documentation Sentry : https://docs.sentry.io/platforms/python/\n\nConsulter cette URL pour la documentation sur '/platforms/python'.".to_string())
    );
}

// ─── Supabase ────────────────────────────────────────────────────────────────

fn supabase_cfg(project: Option<&str>) -> supabase::SupabaseConfig {
    supabase::SupabaseConfig { access_token: "t".to_string(), project_id: project.map(|p| p.to_string()) }
}

#[test]
fn supabase_project_comes_from_arguments_then_configuration() {
    let cfg = supabase_cfg(Some("p1"));
    let r = req(supabase::handle(&cfg, "supabase_get_project", &obj(vec![]), &vec![]));
    assert_eq!(r.url, "https://api.supabase.com/v1/projects/p1");
    let r = req(supabase::handle(&cfg, "supabase_get_project", &obj(vec![("project_id", s("p2"))]), &vec![]));
    assert_eq!(r.url, "https://api.supabase.com/v1/projects/p2");
    let out = done(supabase::handle(&supabase_cfg(Some("")), "supabase_get_project", &obj(vec![("project_id", s(""))]), &vec![]));
    assert_eq!(out, Err("project_id requis — fournir en argument ou configurer dans supabase.toml".to_string()));
}

#[test]
fn supabase_get_project_renders_the_project() {
    let resp = obj(vec![
        ("name", s("N")),
        ("region", s("eu")),
        ("status", s("ACTIVE")),
        ("organization_id", s("o")),
        ("subscription_id", s("s")),
    ]);
    let out = done(supabase::handle(&supabase_cfg(Some("p1")), "supabase_get_project", &obj(vec![]), &vec![resp]));
    assert_eq!(
        out,
        Ok("Projet p1\nNom          : N\nRégion       : eu\nStatut       : ACTIVE\nOrganisation : o\nPlan         : s\nURL          : https://p1.supabase.co".to_string())
    );
}

#[test]
fn supabase_execute_sql_outcomes() {
    let cfg = supabase_cfg(Some("p1"));
    let args = obj(vec![("query", s("select 1"))]);
    let r = req(supabase::handle(&cfg, "supabase_execute_sql", &args, &vec![]));
    assert_eq!(r.body, Some("{\"query\":\"select 1\"}".to_string()));
    let err = obj(vec![("message", s("syntax"))]);
    assert_eq!(done(supabase::handle(&cfg, "supabase_execute_sql", &args, &vec![err])), Err("Erreur SQL : syntax".to_string()));
    let rows = arr(vec![obj(vec![("a", Json::PosInt(1))])]);
    assert_eq!(done(supabase::handle(&cfg, "supabase_execute_sql", &args, &vec![rows])), Ok("1 ligne(s) :\n  [0] {\"a\":1}".to_string()));
    assert_eq!(
        done(supabase::handle(&cfg, "supabase_execute_sql", &args, &vec![arr(vec![])])),
        Ok("Requête exécutée avec succès (0 ligne retournée).\nSQL : select 1".to_string())
    );
}

#[test]
fn supabase_sql_rows_are_cut_after_fifty() {
    let cfg = supabase_cfg(Some("p1"));
    let args = obj(vec![("query", s("q"))]);
    let rows = arr((0..52).map(|i| Json::PosInt(i)).collect());
    let out = done(supabase::handle(&cfg, "supabase_execute_sql", &args, &vec![rows])).unwrap();
    assert!(out.starts_with("52 ligne(s) :\n  [0] 0\n"));
    assert!(out.contains("  [49] 49\n"));
    assert!(!out.contains("[50]"));
    assert!(out.ends_with("  … (2 lignes supplémentaires tronquées)"));
}

#[test]
fn supabase_deploy_updates_then_creates() {
    let cfg = supabase_cfg(Some("p1"));
    let args = obj(vec![("name", s("hello")), ("body_code", s("x"))]);
    let r = req(supabase::handle(&cfg, "supabase_deploy_edge_function", &args, &vec![]));
    assert!(matches!(r.method, Method::Put));
    assert!(r.best_effort);
    assert_eq!(r.url, "https://api.supabase.com/v1/projects/p1/functions/hello");
    assert_eq!(r.body, Some("{\"body\":\"x\",\"name\":\"hello\",\"slug\":\"hello\",\"verify_jwt\":true}".to_string()));
    let failed = arr(vec![obj(vec![("message", s("not found"))])]);
    let r = req(supabase::handle(&cfg, "supabase_deploy_edge_function", &args, &vec![failed]));
    assert!(matches!(r.method, Method::Post));
    assert_eq!(r.url, "https://api.supabase.com/v1/projects/p1/functions");
    let r = req(supabase::handle(&cfg, "supabase_deploy_edge_function", &args, &vec![arr(vec![])]));
    assert!(matches!(r.method, Method::Post));
    let created = obj(vec![("slug", s("hello")), ("status", s("ACTIVE"))]);
    let out = done(supabase::handle(&cfg, "supabase_deploy_edge_function", &args, &vec![arr(vec![]), created]));
    assert_eq!(
        out,
        Ok("Edge Function déployée.\nSlug   : hello\nStatut : ACTIVE\nURL    : https://p1.supabase.co/functions/v1/hello".to_string())
    );
    let updated = arr(vec![obj(vec![("slug", s("hello")), ("status", s("UPDATED"))])]);
    let out = done(supabase::handle(&cfg, "supabase_deploy_edge_function", &args, &vec![updated]));
    assert_eq!(
        out,
        Ok("Edge Function déployée.\nSlug   : hello\nStatut : UPDATED\nURL    : https://p1.supabase.co/functions/v1/hello".to_string())
    );
    let out = done(supabase::handle(&cfg, "supabase_deploy_edge_function", &args, &vec![arr(vec![Json::Null])]));
    assert_eq!(
        out,
        Ok("Edge Function déployée.\nSlug   : hello\nStatut : déployée\nURL    : https://p1.supabase.co/functions/v1/hello".to_string())
    );
}

#[test]
fn supabase_pause_accepts_no_content() {
    let cfg = supabase_cfg(Some("p1"));
    let r = req(supabase::handle(&cfg, "supabase_pause_project", &obj(vec![]), &vec![]));
    assert!(r.no_content);
    assert!(matches!(r.method, Method::Post));
    let out = done(supabase::handle(&cfg, "supabase_pause_project", &obj(vec![]), &vec![obj(vec![("success", Json::Bool(true))])]));
    assert_eq!(out, Ok("Projet p1 mis en pause.\nStatut : pause en cours".to_string()));
}

#[test]
fn supabase_confirm_cost() {
    let cfg = supabase_cfg(None);
    let no = obj(vec![("org_id", s("o")), ("confirm", Json::Bool(false))]);
    assert_eq!(done(supabase::handle(&cfg, "supabase_confirm_cost", &no, &vec![])), Ok("Coût refusé. L'opération n'a pas été effectuée.".to_string()));
    let missing = obj(vec![("org_id", s("o"))]);
    assert_eq!(done(supabase::handle(&cfg, "supabase_confirm_cost", &missing, &vec![])), Err("Paramètre 'confirm' requis".to_string()));
}

#[test]
fn supabase_types_are_cut_after_two_thousand_bytes() {
    let cfg = supabase_cfg(Some("p1"));
    let r = req(supabase::handle(&cfg, "supabase_generate_typescript_types", &obj(vec![]), &vec![]));
    assert!(r.raw_text);
    let text = "a".repeat(2005);
    let out = done(supabase::handle(&cfg, "supabase_generate_typescript_types", &obj(vec![]), &vec![s(&text)])).unwrap();
    let expected = format!(
        "Types TypeScript pour le projet p1 :\n\n{}\n\n… (5 caractères supplémentaires tronqués pour l'affichage)",
        "a".repeat(2000)
    );
    assert_eq!(out, expected);
}

// ─── Reddit ──────────────────────────────────────────────────────────────────

fn reddit_cfg() -> reddit::RedditConfig {
    reddit::RedditConfig {
        client_id: "id".to_string(),
        client_secret: "sec".to_string(),
        username: "bob".to_string(),
        password: "p w&".to_string(),
    }
}

#[test]
fn reddit_starts_with_the_token_request() {
    let r = req(reddit::handle(&reddit_cfg(), "reddit_list_hot_posts", &obj(vec![]), &vec![]));
    assert_eq!(r.url, "https://www.reddit.com/api/v1/access_token");
    assert!(r.form);
    assert!(r.authenticated);
    assert_eq!(r.body, Some("grant_type=password&username=bob&password=p+w%26".to_string()));
}

#[test]
fn reddit_auth_failure_is_reported() {
    let out = done(reddit::handle(&reddit_cfg(), "reddit_list_hot_posts", &obj(vec![]), &vec![obj(vec![("error", s("invalid_grant"))])]));
    assert_eq!(
        out,
        Err("Reddit auth failed: invalid_grant. Vérifiez client_id, client_secret, username, password dans ~/.osmozzz/reddit.toml".to_string())
    );
}

#[test]
fn reddit_hot_posts_use_the_token() {
    let token = obj(vec![("access_token", s("tok"))]);
    let args = obj(vec![("subreddit", s("rust"))]);
    let r = req(reddit::handle(&reddit_cfg(), "reddit_list_hot_posts", &args, &vec![token]));
    assert_eq!(r.url, "https://oauth.reddit.com/r/rust/hot?limit=15");
    assert_eq!(r.bearer, Some("tok".to_string()));
    assert!(!r.authenticated);
    let listing = obj(vec![(
        "data",
        obj(vec![(
            "children",
            arr(vec![obj(vec![
                ("kind", s("t3")),
                (
                    "data",
                    obj(vec![
                        ("id", s("x1")),
                        ("title", s("T")),
                        ("subreddit_name_prefixed", s("r/rust")),
                        ("score", Json::PosInt(10)),
                        ("num_comments", Json::PosInt(2)),
                        ("permalink", s("/r/rust/x1")),
                    ]),
                ),
            ])]),
        )]),
    )]);
    let token = obj(vec![("access_token", s("tok"))]);
    let out = done(reddit::handle(&reddit_cfg(), "reddit_list_hot_posts", &args, &vec![token, listing]));
    assert_eq!(out, Ok("Posts hot de r/rust :\n\n• [x1] T\n  r/rust | ▲10 | 💬2\n  https://reddit.com/r/rust/x1".to_string()));
}

#[test]
fn reddit_vote_posts_a_form() {
    let token = obj(vec![("access_token", s("tok"))]);
    let args = obj(vec![("thing_id", s("t3_x")), ("direction", Json::NegInt(-1))]);
    let r = req(reddit::handle(&reddit_cfg(), "reddit_vote", &args, &vec![token]));
    assert_eq!(r.body, Some("id=t3_x&dir=-1".to_string()));
    let token = obj(vec![("access_token", s("tok"))]);
    let out = done(reddit::handle(&reddit_cfg(), "reddit_vote", &args, &vec![token, obj(vec![])]));
    assert_eq!(out, Ok("Vote enregistré : t3_x downvoté.".to_string()));
}

// ─── Stripe ──────────────────────────────────────────────────────────────────

fn stripe_cfg() -> stripe::StripeConfig {
    stripe::StripeConfig { secret_key: "sk".to_string() }
}

#[test]
fn stripe_lists_customers() {
    let args = obj(vec![("email", s("a@b.c"))]);
    let r = req(stripe::handle(&stripe_cfg(), "stripe_list_customers", &args, 0, &vec![]));
    assert_eq!(r.url, "https://api.stripe.com/v1/customers?limit=10&email=a%40b.c");
    let data = obj(vec![(
        "data",
        arr(vec![obj(vec![("id", s("cus_1")), ("name", s("Ann")), ("email", s("a@b.c")), ("created", Json::PosInt(0))])]),
    )]);
    let out = done(stripe::handle(&stripe_cfg(), "stripe_list_customers", &args, 0, &vec![data]));
    assert_eq!(out, Ok("STRIPE 💳 — Clients (1) :\n\n👤 Ann\n  id=cus_1 · email=a@b.c\n  tél=— · créé=1970-01-01 00:00 UTC".to_string()));
}

#[test]
fn stripe_webhook_events_are_split_and_trimmed() {
    let args = obj(vec![("url", s("https://h.io/w")), ("events", s(" a.b , ,c"))]);
    let r = req(stripe::handle(&stripe_cfg(), "stripe_create_webhook", &args, 0, &vec![]));
    assert!(r.form);
    assert_eq!(r.body, Some("url=https%3A%2F%2Fh.io%2Fw&enabled_events[]=a.b&enabled_events[]=c".to_string()));
}

#[test]
fn stripe_events_since_hours_uses_the_given_time() {
    let args = obj(vec![("since_hours", Json::PosInt(2))]);
    let r = req(stripe::handle(&stripe_cfg(), "stripe_list_events", &args, 10000, &vec![]));
    assert_eq!(r.url, "https://api.stripe.com/v1/events?limit=20&created[gte]=2800");
}

#[test]
fn stripe_missing_parameter() {
    let out = done(stripe::handle(&stripe_cfg(), "stripe_create_customer", &obj(vec![]), 0, &vec![]));
    assert_eq!(out, Err("Missing param: email".to_string()));
    let out = done(stripe::handle(&stripe_cfg(), "stripe_nope", &obj(vec![]), 0, &vec![]));
    assert_eq!(out, Err("Unknown stripe tool: stripe_nope".to_string()));
}

// ─── Shopify ─────────────────────────────────────────────────────────────────

fn shopify_cfg() -> shopify::ShopifyConfig {
    shopify::ShopifyConfig { shop_domain: "shop.myshopify.com".to_string(), access_token: "t".to_string() }
}

#[test]
fn shopify_get_shop_and_errors() {
    let r = req(shopify::handle(&shopify_cfg(), "shopify_get_shop", &obj(vec![]), &vec![]));
    assert_eq!(r.url, "https://shop.myshopify.com/admin/api/2024-01/shop.json");
    let out = done(shopify::handle(&shopify_cfg(), "shopify_get_shop", &obj(vec![]), &vec![obj(vec![("errors", s("Not Found"))])]));
    assert_eq!(out, Err("Shopify API error: \"Not Found\"".to_string()));
}

#[test]
fn shopify_empty_order_list() {
    let out = done(shopify::handle(&shopify_cfg(), "shopify_list_orders", &obj(vec![]), &vec![obj(vec![("orders", arr(vec![]))])]));
    assert_eq!(out, Ok("Aucune commande (statut: any).".to_string()));
}

#[test]
fn shopify_inventory_reads_locations_then_levels() {
    let cfg = shopify_cfg();
    let locs = obj(vec![("locations", arr(vec![obj(vec![("id", Json::PosInt(3)), ("name", s("Main"))])]))]);
    let r = req(shopify::handle(&cfg, "shopify_get_inventory_levels", &obj(vec![]), &vec![]));
    assert_eq!(r.url, "https://shop.myshopify.com/admin/api/2024-01/locations.json");
    let locs2 = obj(vec![("locations", arr(vec![obj(vec![("id", Json::PosInt(3)), ("name", s("Main"))])]))]);
    let r = req(shopify::handle(&cfg, "shopify_get_inventory_levels", &obj(vec![]), &vec![locs2]));
    assert_eq!(r.url, "https://shop.myshopify.com/admin/api/2024-01/inventory_levels.json?location_ids=3&limit=50");
    let levels = obj(vec![(
        "inventory_levels",
        arr(vec![obj(vec![
            ("inventory_item_id", Json::PosInt(7)),
            ("location_id", Json::PosInt(3)),
            ("available", Json::PosInt(5)),
        ])]),
    )]);
    let out = done(shopify::handle(&cfg, "shopify_get_inventory_levels", &obj(vec![]), &vec![locs, levels]));
    assert_eq!(out, Ok("1 entrée(s) d'inventaire :\n\n• Item 7 | Location: Main (3) | Disponible: 5".to_string()));
}

#[test]
fn shopify_price_rules() {
    let rules = obj(vec![(
        "price_rules",
        arr(vec![obj(vec![
            ("id", Json::PosInt(1)),
            ("title", s("Promo")),
            ("value_type", s("percentage")),
            ("value", s("-10.0")),
            ("usage_count", Json::PosInt(3)),
            ("starts_at", s("s")),
        ])]),
    )]);
    let out = done(shopify::handle(&shopify_cfg(), "shopify_list_price_rules", &obj(vec![]), &vec![rules]));
    assert_eq!(
        out,
        Ok("1 règle(s) de prix :\n\n• [1] Promo\n  Remise : -10.0% | 3 utilisations (illimité)\n  Valide : s → aucune".to_string())
    );
}

#[test]
fn shopify_update_inventory_body() {
    let args = obj(vec![
        ("location_id", Json::PosInt(3)),
        ("inventory_item_id", Json::PosInt(7)),
        ("available", Json::NegInt(-2)),
    ]);
    let r = req(shopify::handle(&shopify_cfg(), "shopify_update_inventory", &args, &vec![]));
    assert_eq!(r.body, Some("{\"available\":-2,\"inventory_item_id\":7,\"location_id\":3}".to_string()));
    let out = done(shopify::handle(&shopify_cfg(), "shopify_update_inventory", &args, &vec![obj(vec![])]));
    assert_eq!(out, Ok("Inventaire mis à jour — item 7 @ location 3 : -2 disponible(s).".to_string()));
}

#[test]
fn supabase_can_handle_checks_the_types_preview() {
    let odd = Json::Str(format!("a{}", "é".repeat(1200)));
    assert!(!supabase::can_handle("supabase_generate_typescript_types", &vec![odd]));
    let even = Json::Str("é".repeat(1200));
    assert!(supabase::can_handle("supabase_generate_typescript_types", &vec![even]));
    let odd = Json::Str(format!("a{}", "é".repeat(1200)));
    assert!(supabase::can_handle("supabase_list_projects", &vec![odd]));
}

#[test]
fn notion_can_handle_checks_block_previews() {
    let text = format!("a{}", "é".repeat(60));
    let block = obj(vec![
        ("type", s("paragraph")),
        ("paragraph", obj(vec![("rich_text", arr(vec![obj(vec![("plain_text", s(&text))])]))])),
    ]);
    let resp = obj(vec![("results", arr(vec![block]))]);
    assert!(!notion::can_handle("notion_get_block_children", &vec![resp]));
    assert!(notion::can_handle("notion_get_block_children", &vec![]));
}

#[test]
fn reddit_can_handle_checks_comment_bodies() {
    let body = format!("a{}", "é".repeat(200));
    let entry = obj(vec![("kind", s("t1")), ("data", obj(vec![("body", s(&body))]))]);
    let listing = obj(vec![("data", obj(vec![("children", arr(vec![entry]))]))]);
    let token = obj(vec![("access_token", s("tok"))]);
    assert!(!reddit::can_handle("reddit_get_my_comments", &vec![token, listing]));
    let token = obj(vec![("access_token", s("tok"))]);
    assert!(reddit::can_handle("reddit_get_my_comments", &vec![token]));
}

#[test]
fn shopify_delete_product_reads_status_and_text() {
    let args = obj(vec![("product_id", s("42"))]);
    let r = req(shopify::handle(&shopify_cfg(), "shopify_delete_product", &args, &vec![]));
    assert!(matches!(r.method, Method::Delete));
    assert!(r.status_only && r.raw_text);
    assert!(r.url.ends_with("/admin/api/2024-01/products/42.json"));
    let reply = |ok: bool, text: &str, bad: Option<&str>| {
        let mut ms = vec![("success", Json::Bool(ok)), ("status", s("404 Not Found")), ("text", s(text))];
        if let Some(e) = bad {
            ms.push(("invalid_json", s(e)));
        }
        obj(ms)
    };
    let ok = Ok("Produit 42 supprimé.".to_string());
    assert_eq!(done(shopify::handle(&shopify_cfg(), "shopify_delete_product", &args, &vec![reply(true, " {} ", None)])), ok);
    assert_eq!(done(shopify::handle(&shopify_cfg(), "shopify_delete_product", &args, &vec![reply(true, "", Some("EOF"))])), ok);
    assert_eq!(done(shopify::handle(&shopify_cfg(), "shopify_delete_product", &args, &vec![reply(true, "{\"a\":1}", None)])), ok);
    assert_eq!(
        done(shopify::handle(&shopify_cfg(), "shopify_delete_product", &args, &vec![reply(true, "oops", Some("expected value"))])),
        Err("expected value".to_string())
    );
    assert_eq!(
        done(shopify::handle(&shopify_cfg(), "shopify_delete_product", &args, &vec![reply(false, "gone", None)])),
        Err("Shopify DELETE error 404 Not Found: gone".to_string())
    );
}

#[test]
fn shopify_create_draft_order_posts_the_parsed_items() {
    let args = obj(vec![("line_items", s("[{\"variant_id\": 1, \"quantity\": 2}]")), ("note", s("vite")), ("customer_id", s("7"))]);
    let items = Ok(arr(vec![obj(vec![("quantity", Json::PosInt(2)), ("variant_id", Json::PosInt(1))])]));
    let r = req(shopify::create_draft_order(&shopify_cfg(), &args, &items, &vec![]));
    assert!(matches!(r.method, Method::Post));
    assert!(r.url.ends_with("/admin/api/2024-01/draft_orders.json"));
    assert_eq!(
        r.body,
        Some("{\"draft_order\":{\"customer\":{\"id\":\"7\"},\"line_items\":[{\"quantity\":2,\"variant_id\":1}],\"note\":\"vite\"}}".to_string())
    );
    let resp = obj(vec![("draft_order", obj(vec![("id", Json::PosInt(99)), ("name", s("#D1"))]))]);
    assert_eq!(
        done(shopify::create_draft_order(&shopify_cfg(), &args, &items, &vec![resp])),
        Ok("Commande brouillon créée — #D1 (ID: 99).".to_string())
    );
    let bad: Result<Json, String> = Err("expected value at line 1 column 1".to_string());
    assert_eq!(
        done(shopify::create_draft_order(&shopify_cfg(), &args, &bad, &vec![])),
        Err("Format JSON invalide pour line_items : expected value at line 1 column 1".to_string())
    );
    assert_eq!(
        done(shopify::create_draft_order(&shopify_cfg(), &obj(vec![]), &bad, &vec![])),
        Err("Paramètre 'line_items' requis".to_string())
    );
}
