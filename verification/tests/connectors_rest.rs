use osmozzz::connectors::{n8n, posthog, railway, render, resend, slack, twilio, vercel};
use osmozzz::http::{HttpRequest, Method, Step};
use osmozzz::json::Json;

fn s(x: &str) -> Json {
    Json::Str(x.to_string())
}

fn obj(pairs: Vec<(&str, Json)>) -> Json {
    Json::Object(pairs.into_iter().map(|(k, v)| (k.to_string(), v)).collect())
}

fn arr(items: Vec<Json>) -> Json {
    Json::Array(items)
}

fn req(st: Step) -> HttpRequest {
    match st {
        Step::Send(r) => r,
        Step::Done(x) => panic!("expected a request, got {:?}", x),
    }
}

fn done(st: Step) -> Result<String, String> {
    match st {
        Step::Done(x) => x,
        Step::Send(r) => panic!("expected an outcome, got a request to {}", r.url),
    }
}

// ─── n8n ─────────────────────────────────────────────────────────────────────

fn n8n_cfg() -> n8n::N8nConfig {
    n8n::N8nConfig { api_url: "https://n8n.example.com//".to_string(), api_key: "k".to_string() }
}

#[test]
fn n8n_api_trims_slashes() {
    assert_eq!(n8n_cfg().api("//workflows"), "https://n8n.example.com/api/v1/workflows");
}

#[test]
fn n8n_list_workflows_requests_then_renders() {
    let args = obj(vec![]);
    let r = req(n8n::handle(&n8n_cfg(), "n8n_list_workflows", &args, &vec![]));
    assert!(matches!(r.method, Method::Get));
    assert_eq!(r.url, "https://n8n.example.com/api/v1/workflows?limit=50");
    let wf = obj(vec![
        ("id", Json::PosInt(7)),
        ("name", s("Sync")),
        ("active", Json::Bool(true)),
        ("updatedAt", s("2024-05-01")),
        ("tags", arr(vec![obj(vec![("name", s("a"))]), obj(vec![("x", s("y"))]), obj(vec![("name", s("b"))])])),
    ]);
    let resp = obj(vec![("data", arr(vec![wf]))]);
    let out = done(n8n::handle(&n8n_cfg(), "n8n_list_workflows", &args, &vec![resp]));
    assert_eq!(
        out,
        Ok("1 workflow(s) :\n\n• [7] Sync\n  Statut : actif | Modifié : 2024-05-01\n  Tags   : a, b".to_string())
    );
}

#[test]
fn n8n_empty_list_is_reported() {
    let resp = obj(vec![("data", arr(vec![]))]);
    let out = done(n8n::handle(&n8n_cfg(), "n8n_list_tags", &obj(vec![]), &vec![resp]));
    assert_eq!(out, Ok("Aucun tag trouvé.".to_string()));
}

#[test]
fn n8n_activate_sends_the_patch() {
    let args = obj(vec![("id", s("w1"))]);
    let r = req(n8n::handle(&n8n_cfg(), "n8n_activate_workflow", &args, &vec![]));
    assert!(matches!(r.method, Method::Patch));
    assert_eq!(r.url, "https://n8n.example.com/api/v1/workflows/w1");
    assert_eq!(r.body, Some("{\"active\":true}".to_string()));
    let out = done(n8n::handle(&n8n_cfg(), "n8n_activate_workflow", &args, &vec![obj(vec![])]));
    assert_eq!(out, Ok("Workflow 'w1' (w1) activé avec succès.".to_string()));
}

#[test]
fn n8n_message_in_response_is_the_error() {
    let args = obj(vec![("id", s("w1"))]);
    for name in ["n8n_get_workflow", "n8n_activate_workflow", "n8n_update_workflow", "n8n_delete_tag"] {
        let resp = obj(vec![("message", s("not found"))]);
        let out = done(n8n::handle(&n8n_cfg(), name, &args, &vec![resp]));
        assert_eq!(out, Err("not found".to_string()));
    }
}

#[test]
fn n8n_update_workflow_merges_in_key_order() {
    let args = obj(vec![("id", s("w1")), ("name", s("New")), ("active", Json::Bool(false))]);
    let r = req(n8n::handle(&n8n_cfg(), "n8n_update_workflow", &args, &vec![]));
    assert!(matches!(r.method, Method::Get));
    let existing = || obj(vec![("id", s("w1")), ("nodes", arr(vec![])), ("settings", obj(vec![]))]);
    let r = req(n8n::handle(&n8n_cfg(), "n8n_update_workflow", &args, &vec![existing()]));
    assert!(matches!(r.method, Method::Put));
    assert_eq!(r.url, "https://n8n.example.com/api/v1/workflows/w1");
    assert_eq!(
        r.body,
        Some("{\"active\":false,\"id\":\"w1\",\"name\":\"New\",\"nodes\":[],\"settings\":{}}".to_string())
    );
    let out = done(n8n::handle(&n8n_cfg(), "n8n_update_workflow", &args, &vec![existing(), obj(vec![("name", s("New"))])]));
    assert_eq!(out, Ok("Workflow 'New' (w1) mis à jour avec succès.".to_string()));
}

#[test]
fn n8n_fmt_id_shows_integers_and_empty_strings_as_json() {
    assert_eq!(n8n::fmt_id(&obj(vec![("id", Json::PosInt(12))]), "id"), "12");
    assert_eq!(n8n::fmt_id(&obj(vec![("id", s(""))]), "id"), "\"\"");
    assert_eq!(n8n::fmt_id(&obj(vec![("id", s("ab"))]), "id"), "ab");
    assert_eq!(n8n::fmt_id(&obj(vec![("id", Json::Bool(true))]), "id"), "—");
}

#[test]
fn n8n_unknown_tool() {
    let out = done(n8n::handle(&n8n_cfg(), "n8n_nope", &obj(vec![]), &vec![]));
    assert_eq!(out, Err("Tool n8n inconnu : n8n_nope".to_string()));
}

// ─── Twilio ──────────────────────────────────────────────────────────────────

fn twilio_cfg(from: Option<&str>) -> twilio::TwilioConfig {
    twilio::TwilioConfig {
        account_sid: "AC1".to_string(),
        auth_token: "tok".to_string(),
        from_number: from.map(|f| f.to_string()),
    }
}

#[test]
fn twilio_basic_auth_is_base64_of_the_credentials() {
    assert_eq!(twilio::basic_auth(&twilio_cfg(None)), "QUMxOnRvaw==");
}

#[test]
fn twilio_urlencoding_keeps_only_unreserved() {
    assert_eq!(twilio::urlencoding_simple("a b+é~"), "a%20b%2B%C3%A9~");
    assert_eq!(twilio::post_form_body(&[("To", "+1"), ("Body", "a b")]), "To=%2B1&Body=a%20b");
}

#[test]
fn twilio_send_sms_posts_a_form_then_renders() {
    let args = obj(vec![("to", s("+1555")), ("body", s("Hi there"))]);
    let cfg = twilio_cfg(Some("+1999"));
    let r = req(twilio::handle(&cfg, "twilio_send_sms", &args, &vec![]));
    assert!(matches!(r.method, Method::Post));
    assert!(r.form);
    assert_eq!(r.url, "https://api.twilio.com/2010-04-01/Accounts/AC1/Messages.json");
    assert_eq!(r.body, Some("To=%2B1555&From=%2B1999&Body=Hi%20there".to_string()));
    let resp = obj(vec![("sid", s("SM1")), ("status", s("queued"))]);
    let out = done(twilio::handle(&cfg, "twilio_send_sms", &args, &vec![resp]));
    assert_eq!(
        out,
        Ok("SMS sent\n  SID:    SM1\n  Status: queued\n  To:     +1555\n  From:   +1999".to_string())
    );
    let out = done(twilio::handle(&cfg, "twilio_send_sms", &args, &vec![obj(vec![("message", s("bad"))])]));
    assert_eq!(out, Err("Twilio error: bad".to_string()));
}

#[test]
fn twilio_send_sms_needs_a_sender() {
    let args = obj(vec![("to", s("+1555")), ("body", s("Hi"))]);
    let out = done(twilio::handle(&twilio_cfg(None), "twilio_send_sms", &args, &vec![]));
    assert_eq!(
        out,
        Err("Missing 'from' number — set from_number in twilio.toml or pass 'from' arg".to_string())
    );
}

#[test]
fn twilio_list_messages_caps_the_page_size() {
    let args = obj(vec![("limit", Json::PosInt(500)), ("to", s("+1 5"))]);
    let r = req(twilio::handle(&twilio_cfg(None), "twilio_list_messages", &args, &vec![]));
    assert_eq!(r.url, "https://api.twilio.com/2010-04-01/Accounts/AC1/Messages.json?PageSize=100&To=%2B1%205");
}

#[test]
fn twilio_unknown_tool() {
    let out = done(twilio::handle(&twilio_cfg(None), "twilio_x", &obj(vec![]), &vec![]));
    assert_eq!(out, Err("Unknown twilio tool: twilio_x".to_string()));
}

// ─── Vercel ──────────────────────────────────────────────────────────────────

fn vercel_cfg(team: Option<&str>) -> vercel::VercelConfig {
    vercel::VercelConfig { token: "t".to_string(), team_id: team.map(|x| x.to_string()) }
}

#[test]
fn vercel_with_team_appends_the_team() {
    assert_eq!(vercel_cfg(Some("tm")).with_team("https://a/b"), "https://a/b?teamId=tm");
    assert_eq!(vercel_cfg(Some("tm")).with_team("https://a/b?x=1"), "https://a/b?x=1&teamId=tm");
    assert_eq!(vercel_cfg(Some("")).with_team("https://a/b"), "https://a/b");
    assert_eq!(vercel_cfg(None).with_team("https://a/b"), "https://a/b");
}

#[test]
fn vercel_formats_states_and_times() {
    assert_eq!(vercel::fmt_state("READY"), "✅ READY");
    assert_eq!(vercel::fmt_state("weird"), "weird");
    assert_eq!(vercel::fmt_ts(Some(1700000000000)), "2023-11-14 22:13 UTC");
    assert_eq!(vercel::fmt_ts(None), "—");
}

#[test]
fn vercel_list_projects_requests_with_team_then_renders() {
    let cfg = vercel_cfg(Some("tm"));
    let r = req(vercel::handle(&cfg, "vercel_list_projects", &obj(vec![]), &vec![]));
    assert_eq!(r.url, "https://api.vercel.com/v9/projects?limit=20&teamId=tm");
    let p = obj(vec![
        ("name", s("site")),
        ("id", s("prj_1")),
        ("latestDeployments", arr(vec![obj(vec![("readyState", s("ERROR"))])])),
    ]);
    let out = done(vercel::handle(&cfg, "vercel_list_projects", &obj(vec![]), &vec![obj(vec![("projects", arr(vec![p]))])]));
    assert_eq!(out, Ok("🚀 site\n  id=prj_1 · framework=— · dernier deploy=❌ ERROR".to_string()));
}

#[test]
fn vercel_missing_project_id_is_reported() {
    let out = done(vercel::handle(&vercel_cfg(None), "vercel_get_project", &obj(vec![]), &vec![]));
    assert_eq!(out, Err("Missing param: project_id".to_string()));
}

// ─── Render ──────────────────────────────────────────────────────────────────

fn render_cfg() -> render::RenderConfig {
    render::RenderConfig { token: "t".to_string() }
}

#[test]
fn render_formatters() {
    assert_eq!(render::fmt_service_type("cron_job"), "Cron Job");
    assert_eq!(render::fmt_service_status("suspended"), "⏸️ suspended");
    assert_eq!(render::fmt_deploy_status("canceled"), "🚫 canceled");
    assert_eq!(render::fmt_deploy_status("other"), "other");
    assert_eq!(render_cfg().api("/services"), "https://api.render.com/v1/services");
}

#[test]
fn render_list_services_unwraps_the_service() {
    let cfg = render_cfg();
    let r = req(render::handle(&cfg, "render_list_services", &obj(vec![]), &vec![]));
    assert_eq!(r.url, "https://api.render.com/v1/services?limit=20");
    let item = obj(vec![(
        "service",
        obj(vec![
            ("id", s("srv-1")),
            ("name", s("api")),
            ("type", s("web_service")),
            ("serviceDetails", obj(vec![("url", s("https://api.onrender.com"))])),
            ("status", s("live")),
        ]),
    )]);
    let out = done(render::handle(&cfg, "render_list_services", &obj(vec![]), &vec![arr(vec![item])]));
    assert_eq!(out, Ok("🎨 api (Web Service)\n  id=srv-1 · ✅ live\n  url=https://api.onrender.com".to_string()));
}

#[test]
fn render_empty_service_list() {
    let out = done(render::handle(&render_cfg(), "render_list_services", &obj(vec![]), &vec![arr(vec![])]));
    assert_eq!(out, Ok("Aucun service trouvé.".to_string()));
}

// ─── Railway ─────────────────────────────────────────────────────────────────

fn railway_cfg() -> railway::RailwayConfig {
    railway::RailwayConfig { token: "t".to_string() }
}

#[test]
fn railway_formats_timestamps() {
    assert_eq!(railway::fmt_ts("2024-01-02T03:04:05Z"), "2024-01-02 03:04 UTC");
    assert_eq!(railway::fmt_ts(""), "—");
    assert_eq!(railway::fmt_ts("?"), "—");
    assert_eq!(railway::fmt_ts("yesterday"), "yesterday");
    assert_eq!(railway::fmt_deploy_status("SLEEPING"), "💤 SLEEPING");
}

#[test]
fn railway_list_projects_posts_the_query_then_renders() {
    let cfg = railway_cfg();
    let r = req(railway::handle(&cfg, "railway_list_projects", &obj(vec![]), &vec![]));
    assert!(matches!(r.method, Method::Post));
    assert_eq!(r.url, "https://backboard.railway.app/graphql/v2");
    assert_eq!(
        r.body,
        Some("{\"query\":\"query { me { projects { edges { node { id name description createdAt } } } } }\",\"variables\":{}}".to_string())
    );
    let node = obj(vec![("id", s("p1")), ("name", s("demo")), ("createdAt", s("2024-01-02T03:04:05Z"))]);
    let resp = obj(vec![(
        "data",
        obj(vec![("me", obj(vec![("projects", obj(vec![("edges", arr(vec![obj(vec![("node", node)])]))]))]))]),
    )]);
    let out = done(railway::handle(&cfg, "railway_list_projects", &obj(vec![]), &vec![resp]));
    assert_eq!(out, Ok("🚂 demo\n  id=p1 · créé=2024-01-02 03:04 UTC\n  —".to_string()));
}

#[test]
fn railway_errors_member_is_the_error() {
    let resp = obj(vec![("errors", arr(vec![obj(vec![("message", s("denied"))])]))]);
    let out = done(railway::handle(&railway_cfg(), "railway_list_projects", &obj(vec![]), &vec![resp]));
    assert_eq!(out, Err("[{\"message\":\"denied\"}]".to_string()));
}

// ─── Resend ──────────────────────────────────────────────────────────────────

fn resend_cfg() -> resend::ResendConfig {
    resend::ResendConfig { api_key: "k".to_string() }
}

#[test]
fn resend_send_email_builds_the_body() {
    let args = obj(vec![("from", s("a@x.io")), ("to", s("b@y.io")), ("subject", s("Hi")), ("text", s("yo"))]);
    let r = req(resend::handle(&resend_cfg(), "resend_send_email", &args, &vec![]));
    assert!(matches!(r.method, Method::Post));
    assert_eq!(r.url, "https://api.resend.com/emails");
    assert_eq!(
        r.body,
        Some("{\"from\":\"a@x.io\",\"subject\":\"Hi\",\"text\":\"yo\",\"to\":[\"b@y.io\"]}".to_string())
    );
    let out = done(resend::handle(&resend_cfg(), "resend_send_email", &args, &vec![obj(vec![("id", s("em_1"))])]));
    assert_eq!(out, Ok("Email envoyé.\nID : em_1\nDe : a@x.io\nÀ  : b@y.io\nSujet : Hi".to_string()));
}

#[test]
fn resend_missing_argument() {
    let out = done(resend::handle(&resend_cfg(), "resend_send_email", &obj(vec![("from", s("a"))]), &vec![]));
    assert_eq!(out, Err("Paramètre 'to' requis".to_string()));
}

// ─── PostHog ─────────────────────────────────────────────────────────────────

fn posthog_cfg() -> posthog::PosthogConfig {
    posthog::PosthogConfig { api_key: "phx".to_string(), project_id: "42".to_string(), host: posthog::default_host() }
}

#[test]
fn posthog_urls() {
    let cfg = posthog::PosthogConfig { api_key: "k".to_string(), project_id: "42".to_string(), host: "https://eu.posthog.com/".to_string() };
    assert_eq!(cfg.project_api("/events"), "https://eu.posthog.com/api/projects/42/events");
    assert_eq!(cfg.global_api("/capture/"), "https://eu.posthog.com/capture/");
    assert_eq!(posthog::default_host(), "https://us.posthog.com");
    assert_eq!(posthog::urlenc("a b&c"), "a%20b%26c");
}

#[test]
fn posthog_query_events_requests_then_renders() {
    let args = obj(vec![("event_name", s("$pageview")), ("limit", Json::PosInt(500))]);
    let r = req(posthog::handle(&posthog_cfg(), "posthog_query_events", &args, &vec![]));
    assert_eq!(r.url, "https://us.posthog.com/api/projects/42/events?event=%24pageview&limit=100");
    let ev = obj(vec![("uuid", s("u1")), ("event", s("$pageview")), ("distinct_id", s("d")), ("timestamp", s("t"))]);
    let out = done(posthog::handle(&posthog_cfg(), "posthog_query_events", &args, &vec![obj(vec![("results", arr(vec![ev]))])]));
    assert_eq!(
        out,
        Ok("PostHog Events (filter: $pageview) — 1 returned:\n\n• [u1] $pageview | user: d | t\n".to_string())
    );
    let out = done(posthog::handle(&posthog_cfg(), "posthog_query_events", &args, &vec![obj(vec![])]));
    assert_eq!(out, Err("Unexpected response format".to_string()));
}

#[test]
fn posthog_capture_event_reports_success() {
    let args = obj(vec![("event", s("signup")), ("distinct_id", s("u7"))]);
    let r = req(posthog::handle(&posthog_cfg(), "posthog_capture_event", &args, &vec![]));
    assert_eq!(r.url, "https://us.posthog.com/capture/");
    assert_eq!(
        r.body,
        Some("{\"api_key\":\"phx\",\"distinct_id\":\"u7\",\"event\":\"signup\",\"properties\":{}}".to_string())
    );
    let out = done(posthog::handle(&posthog_cfg(), "posthog_capture_event", &args, &vec![obj(vec![("status", Json::PosInt(1))])]));
    assert_eq!(out, Ok("Event \"signup\" captured successfully for distinct_id \"u7\".".to_string()));
    let out = done(posthog::handle(&posthog_cfg(), "posthog_capture_event", &args, &vec![obj(vec![("status", Json::PosInt(0))])]));
    assert_eq!(out, Ok("Event \"signup\" sent. Response: {\"status\":0}".to_string()));
}

// ─── Slack ───────────────────────────────────────────────────────────────────

fn slack_cfg() -> slack::SlackConfig {
    slack::SlackConfig { token: "xoxb".to_string(), team_id: None }
}

#[test]
fn slack_ok_reads_the_error() {
    assert_eq!(slack::slack_ok(&obj(vec![("ok", Json::Bool(true))])), Ok(()));
    assert_eq!(
        slack::slack_ok(&obj(vec![("ok", Json::Bool(false)), ("error", s("not_in_channel"))])),
        Err("Slack API error: not_in_channel".to_string())
    );
    assert_eq!(
        slack::slack_ok(&obj(vec![("error", s("e")), ("detail", s("d"))])),
        Err("Slack API error: e — d".to_string())
    );
    assert_eq!(slack::slack_ok(&obj(vec![])), Err("Slack API error: unknown_error".to_string()));
}

#[test]
fn slack_list_channels_requests_then_renders() {
    let args = obj(vec![("limit", Json::PosInt(5000)), ("cursor", s("abc"))]);
    let r = req(slack::handle(&slack_cfg(), "slack_list_channels", &args, &vec![]));
    assert_eq!(
        r.url,
        "https://slack.com/api/conversations.list?limit=1000&exclude_archived=true&types=public_channel&cursor=abc"
    );
    let ch = obj(vec![
        ("id", s("C1")),
        ("name", s("general")),
        ("num_members", Json::PosInt(3)),
        ("topic", obj(vec![("value", s("news"))])),
    ]);
    let resp = obj(vec![
        ("ok", Json::Bool(true)),
        ("channels", arr(vec![ch])),
        ("response_metadata", obj(vec![("next_cursor", s("n2"))])),
    ]);
    let out = done(slack::handle(&slack_cfg(), "slack_list_channels", &args, &vec![resp]));
    assert_eq!(out, Ok("1 channel(s) :\n• [C1] #general (3 membres) — news\n\nPagination : cursor=n2".to_string()));
}

#[test]
fn slack_failed_response_is_the_error() {
    let resp = obj(vec![("ok", Json::Bool(false)), ("error", s("invalid_auth"))]);
    let args = obj(vec![("channel_id", s("C1"))]);
    let out = done(slack::handle(&slack_cfg(), "slack_get_channel_info", &args, &vec![resp]));
    assert_eq!(out, Err("Slack API error: invalid_auth".to_string()));
}

#[test]
fn slack_create_channel_sends_json() {
    let args = obj(vec![("name", s("dev"))]);
    let r = req(slack::handle(&slack_cfg(), "slack_create_channel", &args, &vec![]));
    assert!(matches!(r.method, Method::Post));
    assert_eq!(r.url, "https://slack.com/api/conversations.create");
    assert_eq!(r.body, Some("{\"is_private\":false,\"name\":\"dev\"}".to_string()));
    let resp = obj(vec![("ok", Json::Bool(true)), ("channel", obj(vec![("id", s("C9"))]))]);
    let out = done(slack::handle(&slack_cfg(), "slack_create_channel", &args, &vec![resp]));
    assert_eq!(out, Ok("Channel créé.\nID   : C9\nNom  : #dev\nType : public".to_string()));
}

#[test]
fn slack_can_handle_rejects_a_topic_cut_inside_a_character() {
    let topic = format!("a{}", "é".repeat(40));
    let resp = || obj(vec![("ok", Json::Bool(true)), ("channels", arr(vec![obj(vec![("id", s("C1")), ("topic", obj(vec![("value", s(&topic))]))])]))]);
    assert!(!slack::can_handle("slack_list_channels", &vec![resp()]));
    assert!(slack::can_handle("slack_get_channel_info", &vec![resp()]));
    let even = obj(vec![("ok", Json::Bool(true)), ("channels", arr(vec![obj(vec![("topic", obj(vec![("value", s(&"é".repeat(40)))]))])]))]);
    assert!(slack::can_handle("slack_list_channels", &vec![even]));
}

#[test]
fn twilio_can_handle_checks_message_previews() {
    let odd = obj(vec![("messages", arr(vec![obj(vec![("body", s(&format!("a{}", "é".repeat(50))))])]))]);
    assert!(!twilio::can_handle("twilio_list_messages", &vec![odd]));
    let even = obj(vec![("messages", arr(vec![obj(vec![("body", s(&"é".repeat(50)))])]))]);
    assert!(twilio::can_handle("twilio_list_messages", &vec![even]));
    assert!(twilio::can_handle("twilio_list_messages", &vec![]));
}

#[test]
fn n8n_can_handle_needs_an_object_to_merge_into() {
    let args = obj(vec![("id", s("w1")), ("name", s("New"))]);
    assert!(!n8n::can_handle("n8n_update_workflow", &args, &vec![arr(vec![])]));
    assert!(n8n::can_handle("n8n_update_workflow", &args, &vec![Json::Null]));
    assert!(n8n::can_handle("n8n_update_workflow", &obj(vec![("id", s("w1"))]), &vec![arr(vec![])]));
}

#[test]
fn vercel_list_env_never_shows_values() {
    let args = obj(vec![("project_id", s("p1"))]);
    let env = |value: &str| {
        obj(vec![("envs", arr(vec![obj(vec![
            ("key", s("DATABASE_URL")),
            ("value", s(value)),
            ("type", s("encrypted")),
            ("target", arr(vec![s("production"), s("preview")])),
        ])]))])
    };
    let a = done(vercel::handle(&vercel_cfg(None), "vercel_list_env", &args, &vec![env("postgres://secret")]));
    let b = done(vercel::handle(&vercel_cfg(None), "vercel_list_env", &args, &vec![env("other")]));
    assert_eq!(a, Ok("DATABASE_URL  [encrypted] → production, preview".to_string()));
    assert_eq!(a, b);
}

#[test]
fn render_list_env_vars_never_shows_values() {
    let args = obj(vec![("service_id", s("srv"))]);
    let vars = |value: &str| {
        arr(vec![
            obj(vec![("envVar", obj(vec![("key", s("API_KEY")), ("value", s(value))]))]),
            obj(vec![("key", s("PORT")), ("value", s(value))]),
        ])
    };
    let a = done(render::handle(&render_cfg(), "render_list_env_vars", &args, &vec![vars("s3cr3t")]));
    let b = done(render::handle(&render_cfg(), "render_list_env_vars", &args, &vec![vars("x")]));
    assert_eq!(
        a,
        Ok("Variables d'environnement (2) — noms uniquement (valeurs masquées) :\nAPI_KEY\nPORT".to_string())
    );
    assert_eq!(a, b);
}

#[test]
fn railway_get_variables_never_shows_values() {
    let args = obj(vec![("project_id", s("p")), ("environment_id", s("e")), ("service_id", s("v"))]);
    let r = req(railway::handle(&railway_cfg(), "railway_get_variables", &args, &vec![]));
    assert!(r.body.unwrap().ends_with(",\"variables\":{\"environmentId\":\"e\",\"projectId\":\"p\",\"serviceId\":\"v\"}}"));
    let reply = |value: &str| {
        obj(vec![("data", obj(vec![("variables", obj(vec![("TOKEN", s(value)), ("HOST", s(value))]))]))])
    };
    let a = done(railway::handle(&railway_cfg(), "railway_get_variables", &args, &vec![reply("s3cr3t")]));
    let b = done(railway::handle(&railway_cfg(), "railway_get_variables", &args, &vec![reply("x")]));
    assert_eq!(a, Ok("Variables (2) — noms uniquement (valeurs masquées) :\nTOKEN\nHOST".to_string()));
    assert_eq!(a, b);
}

#[test]
fn n8n_list_credentials_never_shows_secrets() {
    let cred = |secret: &str| {
        obj(vec![("data", arr(vec![obj(vec![
            ("id", s("c1")),
            ("name", s("Prod DB")),
            ("type", s("postgres")),
            ("createdAt", s("2024-01-01")),
            ("data", obj(vec![("password", s(secret))])),
        ])]))])
    };
    let a = done(n8n::handle(&n8n_cfg(), "n8n_list_credentials", &obj(vec![]), &vec![cred("hunter2")]));
    let b = done(n8n::handle(&n8n_cfg(), "n8n_list_credentials", &obj(vec![]), &vec![cred("other")]));
    assert_eq!(a, Ok("1 credential(s) :\n\n• [\"c1\"] Prod DB\n  Type : postgres | Créé : 2024-01-01".to_string()));
    assert_eq!(a, b);
}
