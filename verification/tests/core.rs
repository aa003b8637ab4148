use osmozzz::encoding::{escape_delimiters, form_body, pct_encode, percent_encode};
use osmozzz::fmt::{byte_prefix, cut_exec, join_strings, join_strs};
use osmozzz::json::{to_json_string, to_json_string_pretty, Json};
use osmozzz::mcp_proxy::{
    initialize_line, initialized_notification_line, is_response_to, request_line, start_failed_error,
    tool_call_outcome, tool_names, tools_call_line, tools_list_line, tools_of, unavailable_error,
    startup_step, RequestCounter, Startup, StartupStep,
};
use osmozzz::signing::{first_chars, sign, verify_sig};
use osmozzz::text::{eq_ignore_ascii_case, i64_to_string, trim_end_ws, trim_ws, u64_to_string};

fn s(x: &str) -> Json {
    Json::Str(x.to_string())
}

fn obj(pairs: Vec<(&str, Json)>) -> Json {
    Json::Object(pairs.into_iter().map(|(k, v)| (k.to_string(), v)).collect())
}

#[test]
fn sign_matches_hmac_sha256_of_the_payload() {
    let key = [7u8; 32];
    let sig = sign(&key, "gmail", "https://mail.example/1", "Hello world", 1700000000);
    assert_eq!(sig, "bd53a096ded79ef493c20b295817189b2d19d5c486d873efab10b020d83bf23e");
}

#[test]
fn sign_covers_only_the_first_hundred_bytes() {
    let key = [7u8; 32];
    let long = "é".repeat(60);
    let sig = sign(&key, "s", "u", &long, -5);
    assert_eq!(sig, "092ca8362f501d63e72431d03c0fafeac5688e9be192a6fa2b467b3dacb73830");
    let longer = format!("{}tail", long);
    assert_eq!(sign(&key, "s", "u", &longer, -5), sig);
}

#[test]
fn verify_accepts_own_signature_and_rejects_others() {
    let key = [1u8; 32];
    let sig = sign(&key, "src", "url", "content", 42);
    assert!(verify_sig(&sig, &key, "src", "url", "content", 42));
    assert!(!verify_sig(&sig, &key, "src", "url", "content", 43));
    assert!(!verify_sig(&sig, &[2u8; 32], "src", "url", "content", 42));
    assert!(!verify_sig("abc", &key, "src", "url", "content", 42));
    let upper = sig.to_uppercase();
    assert!(!verify_sig(&upper, &key, "src", "url", "content", 42));
}

#[test]
fn first_chars_stops_at_a_character_boundary() {
    assert_eq!(first_chars("héllo", 2), "h");
    assert_eq!(first_chars("héllo", 3), "hé");
    assert_eq!(first_chars("abc", 10), "abc");
    assert_eq!(first_chars("", 4), "");
}

#[test]
fn json_compact_text_escapes_and_keeps_member_order() {
    let v = obj(vec![
        ("b", Json::Bool(true)),
        ("a", Json::Array(vec![Json::PosInt(1), Json::NegInt(-2), Json::Null])),
        ("t", s("quote\" and \\ and \n and \u{1}")),
        ("f", Json::Float("1.5".to_string())),
    ]);
    assert_eq!(
        to_json_string(&v),
        "{\"b\":true,\"a\":[1,-2,null],\"t\":\"quote\\\" and \\\\ and \\n and \\u0001\",\"f\":1.5}"
    );
}

#[test]
fn json_pretty_text_indents_by_two_spaces() {
    let v = obj(vec![("a", Json::Array(vec![Json::PosInt(1)])), ("e", obj(vec![])), ("l", Json::Array(vec![]))]);
    assert_eq!(to_json_string_pretty(&v), "{\n  \"a\": [\n    1\n  ],\n  \"e\": {},\n  \"l\": []\n}");
}

#[test]
fn json_accessors_read_the_first_member_of_a_name() {
    let v = obj(vec![("k", s("one")), ("k", s("two")), ("n", Json::PosInt(u64::MAX))]);
    assert_eq!(v.get("k").and_then(|x| x.as_str()), Some("one"));
    assert_eq!(v.get("n").and_then(|x| x.as_i64()), None);
    assert_eq!(v.get("n").and_then(|x| x.as_u64()), Some(u64::MAX));
    assert!(v.get("missing").is_none());
    assert_eq!(Json::NegInt(-3).as_u64(), None);
}

#[test]
fn percent_encoding_keeps_unreserved_bytes() {
    assert_eq!(percent_encode("a b+é~", false), "a%20b%2B%C3%A9~");
    assert_eq!(percent_encode("a b", true), "a+b");
    assert_eq!(pct_encode("x=1&y"), "x%3D1%26y");
}

#[test]
fn delimiter_escaping_touches_only_delimiters() {
    assert_eq!(escape_delimiters("is:open a/b?c#d&e=f+g%h"), "is%3Aopen%20a%2Fb%3Fc%23d%26e%3Df%2Bg%25h");
    assert_eq!(escape_delimiters("déjà"), "déjà");
}

#[test]
fn form_body_joins_encoded_pairs() {
    assert_eq!(form_body(&[("To", "+33 6"), ("Body", "a&b")]), "To=%2B33%206&Body=a%26b");
    assert_eq!(form_body(&[]), "");
}

#[test]
fn integers_render_in_decimal() {
    assert_eq!(u64_to_string(0), "0");
    assert_eq!(u64_to_string(18446744073709551615), "18446744073709551615");
    assert_eq!(i64_to_string(-9223372036854775808), "-9223372036854775808");
    assert_eq!(i64_to_string(-7), "-7");
}

#[test]
fn trimming_removes_unicode_white_space() {
    assert_eq!(trim_end_ws("ab \n\t\u{3000}"), "ab");
    assert_eq!(trim_ws("  \u{a0}x y\n"), "x y");
    assert_eq!(trim_ws(" \t "), "");
}

#[test]
fn ascii_case_comparison() {
    assert!(eq_ignore_ascii_case("Bearer", "bEARER"));
    assert!(!eq_ignore_ascii_case("É", "é"));
    assert!(!eq_ignore_ascii_case("ab", "abc"));
}

#[test]
fn byte_cuts_and_joins() {
    assert_eq!(byte_prefix("héllo", 3), "hé");
    assert_eq!(cut_exec("héllo", 3), "hé");
    assert_eq!(cut_exec("hé", 10), "hé");
    assert_eq!(join_strs(&vec!["a", "b", "c"], ", "), "a, b, c");
    assert_eq!(join_strings(&vec![], "&"), "");
}

#[test]
fn request_ids_count_up_from_one_hundred() {
    let mut c = RequestCounter::new();
    assert_eq!(c.next_id(), 100);
    assert_eq!(c.next_id(), 101);
    let mut last = RequestCounter { next: u64::MAX };
    assert_eq!(last.next_id(), u64::MAX);
    assert_eq!(last.next_id(), 0);
}

#[test]
fn json_rpc_lines() {
    assert_eq!(
        initialize_line(7),
        "{\"id\":7,\"jsonrpc\":\"2.0\",\"method\":\"initialize\",\"params\":{\"capabilities\":{},\"clientInfo\":{\"name\":\"osmozzz\",\"version\":\"1.0.0\"},\"protocolVersion\":\"2024-11-05\"}}\n"
    );
    assert_eq!(
        initialized_notification_line(),
        "{\"jsonrpc\":\"2.0\",\"method\":\"notifications/initialized\",\"params\":{}}\n"
    );
    assert_eq!(tools_list_line(3), "{\"id\":3,\"jsonrpc\":\"2.0\",\"method\":\"tools/list\",\"params\":{}}\n");
    assert_eq!(
        tools_call_line(4, "search", &obj(vec![("q", s("x"))])),
        "{\"id\":4,\"jsonrpc\":\"2.0\",\"method\":\"tools/call\",\"params\":{\"arguments\":{\"q\":\"x\"},\"name\":\"search\"}}\n"
    );
    assert_eq!(
        request_line(5, "m", &Json::Null),
        "{\"id\":5,\"jsonrpc\":\"2.0\",\"method\":\"m\",\"params\":null}\n"
    );
}

#[test]
fn responses_are_matched_by_id_and_read() {
    let resp = obj(vec![
        ("id", Json::PosInt(9)),
        ("result", obj(vec![("tools", Json::Array(vec![obj(vec![("name", s("a"))]), obj(vec![("x", s("b"))])]))])),
    ]);
    assert!(is_response_to(&resp, 9));
    assert!(!is_response_to(&resp, 10));
    let tools = tools_of(&resp).unwrap();
    assert_eq!(tool_names(tools), vec!["a".to_string()]);
    let ok = obj(vec![(
        "result",
        obj(vec![("content", Json::Array(vec![obj(vec![("text", s("fait"))])]))]),
    )]);
    assert_eq!(tool_call_outcome("jira", &ok), Ok("fait".to_string()));
    assert_eq!(tool_call_outcome("jira", &obj(vec![])), Ok("Action exécutée.".to_string()));
    let err = obj(vec![("error", obj(vec![("code", Json::NegInt(-1))]))]);
    assert_eq!(tool_call_outcome("jira", &err), Err("Erreur jira MCP: {\"code\":-1}".to_string()));
    assert_eq!(unavailable_error("x"), "Subprocess x indisponible");
    assert_eq!(start_failed_error("x"), "Impossible de démarrer le subprocess x");
}

#[test]
fn startup_sends_initialize_notification_then_tools_list() {
    let mut ids = RequestCounter::new();
    match startup_step(Startup::Spawned, true, &mut ids) {
        StartupStep::Send { line, awaits, next } => {
            assert_eq!(line, initialize_line(100));
            assert_eq!(awaits, Some(100));
            assert!(next == Startup::Initializing);
        }
        _ => panic!("expected the initialize request"),
    }
    assert!(matches!(startup_step(Startup::Initializing, false, &mut ids), StartupStep::Failed));
    match startup_step(Startup::Initializing, true, &mut ids) {
        StartupStep::Send { line, awaits, next } => {
            assert_eq!(line, initialized_notification_line());
            assert_eq!(awaits, None);
            assert!(next == Startup::Notified);
        }
        _ => panic!("expected the notification"),
    }
    match startup_step(Startup::Notified, true, &mut ids) {
        StartupStep::Send { line, awaits, next } => {
            assert_eq!(line, tools_list_line(101));
            assert_eq!(awaits, Some(101));
            assert!(next == Startup::Listing);
        }
        _ => panic!("expected the tools/list request"),
    }
    assert!(matches!(startup_step(Startup::Listing, false, &mut ids), StartupStep::Ready));
    assert_eq!(ids.next_id(), 102);
}
