use codex_auth_proxy::bearer_is_authorized;
use codex_auth_proxy::catalog_projection_failed_reply;
use codex_auth_proxy::models_request_headers;
use codex_auth_proxy::refresh_failed_reply;
use codex_auth_proxy::responses_request_headers;
use codex_auth_proxy::CodexHome;
use codex_auth_proxy::CODEX_DIR_NAME;
use codex_auth_proxy::copy_response_headers;
use codex_auth_proxy::default_codex_home;
use codex_auth_proxy::existing_installation_id_in;
use codex_auth_proxy::installation_id_file_contents;
use codex_auth_proxy::models_url;
use codex_auth_proxy::next_step;
use codex_auth_proxy::normalize_responses_body;
use codex_auth_proxy::normalize_responses_value;
use codex_auth_proxy::openai_models_body_from_codex_catalog;
use codex_auth_proxy::openai_models_from_catalog;
use codex_auth_proxy::refuse_request_body;
use codex_auth_proxy::reject_unauthorized;
use codex_auth_proxy::require_proxy_api_key;
use codex_auth_proxy::resolve_installation_id;
use codex_auth_proxy::responses_url;
use codex_auth_proxy::start_flow;
use codex_auth_proxy::startup_message;
use codex_auth_proxy::status_is_success;
use codex_auth_proxy::upstream_headers;
use codex_auth_proxy::ProxyAction;
use codex_auth_proxy::ProxyConfig;
use codex_auth_proxy::ProxyEvent;
use codex_auth_proxy::ProxyFlow;
use codex_auth_proxy::ProxyPhase;
use codex_auth_proxy::ProxyRoute;
use codex_auth_proxy::DEFAULT_AUTH_REFRESH_INTERVAL_SECS;
use codex_auth_proxy::DEFAULT_LISTEN;
use codex_auth_proxy::INSTALLATION_ID_FILENAME;
use codex_auth_proxy::OPENAI_MODELS_PATH;
use codex_auth_proxy::OPENAI_RESPONSES_PATH;
use codex_auth_proxy::X_CLIENT_REQUEST_ID;
use codex_auth_proxy::X_CODEX_INSTALLATION_ID;
use http::header;
use http::HeaderMap;
use http::HeaderValue;
use http::StatusCode;
use serde_json::Value;

fn parse(text: &str) -> Value {
    serde_json::from_str(text).expect("test JSON")
}

#[test]
fn urls_drop_every_trailing_slash() {
    assert_eq!(responses_url("https://h/api///"), "https://h/api/responses");
    assert_eq!(responses_url("https://h/api"), "https://h/api/responses");
    assert_eq!(responses_url(""), "/responses");
    assert_eq!(responses_url("///"), "/responses");
    assert_eq!(models_url("https://h/api//", "1.2.3"), "https://h/api/models?client_version=1.2.3");
    assert_eq!(models_url("https://h/api", ""), "https://h/api/models?client_version=");
}

#[test]
fn urls_ignore_any_number_of_trailing_slashes() {
    for base in ["https://chatgpt.com/backend-api/codex", "x/", "", "a/b"] {
        for n in 1..4 {
            let with_slashes = format!("{base}{}", "/".repeat(n));
            assert_eq!(responses_url(&with_slashes), responses_url(base));
            assert_eq!(models_url(&with_slashes, "v"), models_url(base, "v"));
            assert!(!responses_url(&with_slashes).contains("//responses"));
        }
    }
}

#[test]
fn urls_keep_non_ascii_base() {
    assert_eq!(responses_url("https://hé/ü/"), "https://hé/ü/responses");
}

#[test]
fn models_projection_gives_exact_bytes() {
    let projected = openai_models_body_from_codex_catalog(br#"{"models":[{"slug":"gpt-test"}]}"#)
        .expect("project");
    assert_eq!(
        String::from_utf8(projected).unwrap(),
        r#"{"data":[{"created":0,"id":"gpt-test","object":"model","owned_by":"openai"}],"object":"list"}"#
    );
}

#[test]
fn models_projection_skips_entries_without_string_slug() {
    let body = br#"{"models":[{"slug":"a"},{"name":"b"},{"slug":7},"c",{"slug":"d"}],"other":1}"#;
    let projected = openai_models_body_from_codex_catalog(body).expect("project");
    let value: Value = serde_json::from_slice(&projected).unwrap();
    let data = value["data"].as_array().unwrap();
    assert_eq!(data.len(), 2);
    assert_eq!(data[0]["id"], "a");
    assert_eq!(data[1]["id"], "d");
}

#[test]
fn models_projection_of_empty_catalog_is_empty_list() {
    let projected = openai_models_body_from_codex_catalog(br#"{"models":[]}"#).unwrap();
    assert_eq!(String::from_utf8(projected).unwrap(), r#"{"data":[],"object":"list"}"#);
}

#[test]
fn models_projection_errors() {
    let err = openai_models_body_from_codex_catalog(b"not json").unwrap_err();
    assert!(err.starts_with("invalid models JSON: "), "{err}");
    let err = openai_models_body_from_codex_catalog(br#"{"data":[]}"#).unwrap_err();
    assert_eq!(err, "models response must contain a models list");
    let err = openai_models_body_from_codex_catalog(br#"{"models":{"slug":"x"}}"#).unwrap_err();
    assert_eq!(err, "models response must contain a models list");
    let err = openai_models_body_from_codex_catalog(br#"[{"models":[]}]"#).unwrap_err();
    assert_eq!(err, "models response must contain a models list");
}

#[test]
fn models_projection_on_parsed_value() {
    let catalog = parse(r#"{"models": [{"slug": "s"}]}"#);
    let list = openai_models_from_catalog(&catalog).unwrap();
    assert_eq!(
        list,
        parse(r#"{"object": "list", "data": [{"id": "s", "object": "model", "created": 0, "owned_by": "openai"}]}"#)
    );
}

#[test]
fn bearer_check_edge_cases() {
    let empty = HeaderMap::new();
    assert!(!bearer_is_authorized(&empty, "k"));

    let mut lower = HeaderMap::new();
    lower.insert(header::AUTHORIZATION, HeaderValue::from_static("bearer k"));
    assert!(!bearer_is_authorized(&lower, "k"));

    let mut non_ascii = HeaderMap::new();
    non_ascii.insert(header::AUTHORIZATION, HeaderValue::from_bytes(b"Bearer k\xfa").unwrap());
    assert!(!bearer_is_authorized(&non_ascii, "k\u{fa}"));

    let mut two = HeaderMap::new();
    two.append(header::AUTHORIZATION, HeaderValue::from_static("Bearer first"));
    two.append(header::AUTHORIZATION, HeaderValue::from_static("Bearer second"));
    assert!(bearer_is_authorized(&two, "first"));
    assert!(!bearer_is_authorized(&two, "second"));

    let mut empty_key = HeaderMap::new();
    empty_key.insert(header::AUTHORIZATION, HeaderValue::from_static("Bearer "));
    assert!(bearer_is_authorized(&empty_key, ""));
    assert!(!bearer_is_authorized(&empty_key, " "));
}

#[test]
fn upstream_headers_minimal_and_invalid_values() {
    let headers = upstream_headers("tok", None, false);
    assert_eq!(headers.len(), 1);
    assert_eq!(headers.get(header::AUTHORIZATION).unwrap(), "Bearer tok");

    let headers = upstream_headers("bad\ntoken", Some("bad\naccount"), false);
    assert!(headers.is_empty());

    let headers = upstream_headers("tok", Some("acc"), false);
    assert_eq!(headers.len(), 2);
    assert!(!headers.contains_key("x-openai-fedramp"));

    let headers = upstream_headers("tök", None, true);
    assert_eq!(headers.get(header::AUTHORIZATION).unwrap().as_bytes(), "Bearer tök".as_bytes());
    assert_eq!(headers.get("x-openai-fedramp").unwrap(), "true");
}

#[test]
fn copied_headers_keep_first_value_of_allow_listed_only() {
    let mut headers = HeaderMap::new();
    headers.append(header::CACHE_CONTROL, HeaderValue::from_static("no-cache"));
    headers.append(header::CACHE_CONTROL, HeaderValue::from_static("no-store"));
    headers.insert("openai-processing-ms", HeaderValue::from_static("12"));
    headers.insert("openai-organization", HeaderValue::from_static("org"));
    headers.insert("openai-project", HeaderValue::from_static("proj"));
    headers.insert(header::SET_COOKIE, HeaderValue::from_static("a=b"));
    headers.insert(header::TRANSFER_ENCODING, HeaderValue::from_static("chunked"));

    let copied = copy_response_headers(&headers);

    assert_eq!(copied.len(), 4);
    let cache: Vec<_> = copied.get_all(header::CACHE_CONTROL).iter().collect();
    assert_eq!(cache, vec![&HeaderValue::from_static("no-cache")]);
    assert_eq!(copied.get("openai-processing-ms").unwrap(), "12");
    assert_eq!(copied.get("openai-organization").unwrap(), "org");
    assert_eq!(copied.get("openai-project").unwrap(), "proj");
    assert!(!copied.contains_key(header::SET_COOKIE));
    assert!(!copied.contains_key(header::TRANSFER_ENCODING));

    let again = copy_response_headers(&copied);
    assert_eq!(again, copied);
}

#[test]
fn reject_unauthorized_is_401_with_message() {
    let (status, message) = reject_unauthorized();
    assert_eq!(status, StatusCode::UNAUTHORIZED);
    assert_eq!(message, "missing or invalid proxy bearer token");
}

#[test]
fn refused_body_is_answered_400() {
    let (status, message) = refuse_request_body("input must be a list".to_string());
    assert_eq!(status, StatusCode::BAD_REQUEST);
    assert_eq!(message, "input must be a list");
}

#[test]
fn normalize_errors_in_order() {
    let err = normalize_responses_body(b"{", "id").unwrap_err();
    assert!(err.starts_with("invalid JSON body: "), "{err}");
    assert_eq!(
        normalize_responses_body(b"[1]", "id").unwrap_err(),
        "request body must be a JSON object"
    );
    assert_eq!(normalize_responses_body(b"{}", "id").unwrap_err(), "input is required");
    assert_eq!(
        normalize_responses_body(br#"{"input":[],"client_metadata":[]}"#, "id").unwrap_err(),
        "client_metadata must be an object"
    );
    assert_eq!(
        normalize_responses_body(br#"{"input":null,"client_metadata":[]}"#, "id").unwrap_err(),
        "input must be a list"
    );
}

#[test]
fn normalize_creates_metadata_and_keeps_other_fields() {
    let out = normalize_responses_body(br#"{"input":[],"model":"m","tools":[{"type":"x"}]}"#, "abc")
        .unwrap();
    assert_eq!(
        String::from_utf8(out).unwrap(),
        r#"{"client_metadata":{"x-codex-installation-id":"abc"},"input":[],"model":"m","store":false,"stream":true,"tools":[{"type":"x"}]}"#
    );
}

#[test]
fn normalize_overwrites_existing_installation_id_and_is_idempotent() {
    let body = br#"{"input":[1],"client_metadata":{"x-codex-installation-id":"old","a":1},"store":true}"#;
    let once = normalize_responses_body(body, "new").unwrap();
    let value: Value = serde_json::from_slice(&once).unwrap();
    assert_eq!(value["client_metadata"][X_CODEX_INSTALLATION_ID], "new");
    assert_eq!(value["client_metadata"]["a"], 1);
    let twice = normalize_responses_body(&once, "new").unwrap();
    assert_eq!(once, twice);
}

#[test]
fn normalize_value_matches_body_function() {
    let value = parse(r#"{"input": [], "stream": false}"#);
    let normalized = normalize_responses_value(value, "i").unwrap();
    assert_eq!(
        normalized,
        parse(r#"{"input": [], "stream": true, "store": false, "client_metadata": {"x-codex-installation-id": "i"}}"#)
    );
    assert_eq!(
        normalize_responses_value(parse(r#""text""#), "i").unwrap_err(),
        "request body must be a JSON object"
    );
}

#[test]
fn installation_id_forms() {
    let id = "550e8400-e29b-41d4-a716-446655440000";
    assert_eq!(existing_installation_id_in(id).as_deref(), Some(id));
    assert_eq!(existing_installation_id_in(&format!(" \t{id}\r\n")).as_deref(), Some(id));
    assert_eq!(existing_installation_id_in(&format!("\u{3000}{id}\u{a0}")).as_deref(), Some(id));
    let simple = "550E8400E29B41D4A716446655440000";
    assert_eq!(existing_installation_id_in(simple).as_deref(), Some(simple));
    let braced = format!("{{{id}}}");
    assert_eq!(existing_installation_id_in(&braced).as_deref(), Some(braced.as_str()));
    let urn = format!("URN:uuid:{id}");
    assert_eq!(existing_installation_id_in(&urn).as_deref(), Some(urn.as_str()));
    assert_eq!(existing_installation_id_in(""), None);
    assert_eq!(existing_installation_id_in("550e8400-e29b-41d4-a716-44665544000g"), None);
    assert_eq!(existing_installation_id_in("550e8400e29b-41d4-a716-4466554400000"), None);
}

#[test]
fn installation_id_is_new_without_valid_file() {
    for contents in [None, Some("garbage"), Some("")] {
        let resolved = resolve_installation_id(contents, *uuid::Uuid::new_v4().as_bytes());
        assert!(resolved.is_new);
        assert_eq!(resolved.id.len(), 36);
        let parsed = uuid::Uuid::parse_str(&resolved.id).unwrap();
        assert_eq!(parsed.get_version_num(), 4);
        assert_eq!(parsed.to_string(), resolved.id);
    }
}

#[test]
fn installation_id_written_then_read_back() {
    let fresh = resolve_installation_id(None, [0x5a; 16]);
    let contents = installation_id_file_contents(&fresh.id);
    assert_eq!(contents, format!("{}\n", fresh.id));
    let again = resolve_installation_id(Some(&contents), [0; 16]);
    assert_eq!(again.id, fresh.id);
    assert!(!again.is_new);
    assert_eq!(INSTALLATION_ID_FILENAME, "installation_id");
}

#[test]
fn new_installation_id_is_made_from_the_random_bytes() {
    let zero = resolve_installation_id(None, [0; 16]);
    assert!(zero.is_new);
    assert_eq!(zero.id, "00000000-0000-4000-8000-000000000000");
    let ones = resolve_installation_id(Some("not a uuid"), [0xff; 16]);
    assert_eq!(ones.id, "ffffffff-ffff-4fff-bfff-ffffffffffff");
    let bytes = [0x12, 0x34, 0x56, 0x78, 0x9a, 0xbc, 0xde, 0xf0, 0x0f, 0xed, 0xcb, 0xa9, 0x87, 0x65, 0x43, 0x21];
    assert_eq!(
        resolve_installation_id(None, bytes).id,
        "12345678-9abc-4ef0-8fed-cba987654321"
    );
    let kept = resolve_installation_id(Some("550e8400-e29b-41d4-a716-446655440000"), bytes);
    assert_eq!(kept.id, "550e8400-e29b-41d4-a716-446655440000");
    assert!(!kept.is_new);
}

#[test]
fn codex_home_choice() {
    assert!(matches!(
        default_codex_home(Some("/data/codex"), Some("/home/u")),
        CodexHome::Configured(p) if p == "/data/codex"
    ));
    assert!(matches!(
        default_codex_home(None, Some("/home/u")),
        CodexHome::UnderHome(h) if h == "/home/u"
    ));
    assert!(matches!(default_codex_home(None, Some("")), CodexHome::UnderHome(h) if h.is_empty()));
    assert!(matches!(default_codex_home(None, None), CodexHome::WorkingDirectory));
    assert_eq!(CODEX_DIR_NAME, ".codex");
}

#[test]
fn failure_replies_carry_status_and_message() {
    let (status, message) = refresh_failed_reply("token expired".to_string());
    assert_eq!(status, StatusCode::UNAUTHORIZED);
    assert_eq!(message, "token expired");
    let (status, message) = catalog_projection_failed_reply("models response must contain a models list".to_string());
    assert_eq!(status, StatusCode::BAD_GATEWAY);
    assert_eq!(message, "models response must contain a models list");
}

#[test]
fn upstream_request_headers() {
    let models = models_request_headers();
    assert_eq!(models.len(), 1);
    assert_eq!(models.get(header::ACCEPT).unwrap(), "application/json");

    let responses = responses_request_headers("inst-1", "req-2").expect("valid ids");
    assert_eq!(responses.len(), 4);
    assert_eq!(responses.get(header::ACCEPT).unwrap(), "text/event-stream");
    assert_eq!(responses.get(header::CONTENT_TYPE).unwrap(), "application/json");
    assert_eq!(responses.get(X_CODEX_INSTALLATION_ID).unwrap(), "inst-1");
    assert_eq!(responses.get(X_CLIENT_REQUEST_ID).unwrap(), "req-2");

    assert!(responses_request_headers("bad\nid", "req").is_none());
    assert!(responses_request_headers("inst", "bad\r").is_none());
}

#[test]
fn startup_message_exact_text() {
    assert_eq!(
        startup_message(DEFAULT_LISTEN),
        "codex-auth-proxy listening on http://127.0.0.1:8765\nendpoints:\nGET /healthz\nGET /models\nGET /v1/models\nPOST /v1/responses"
    );
}

#[test]
fn api_key_is_required() {
    assert_eq!(require_proxy_api_key(Some("k".to_string())), Ok("k".to_string()));
    assert_eq!(
        require_proxy_api_key(None),
        Err("CODEX_PROXY_API_KEY is required unless using a subcommand".to_string())
    );
}

#[test]
fn proxy_config_clones() {
    let config = ProxyConfig {
        listen: DEFAULT_LISTEN.to_string(),
        proxy_api_key: "k".to_string(),
        codex_home: ".codex".to_string(),
        upstream_base_url: "https://u".to_string(),
    };
    let copy = config.clone();
    assert_eq!(copy.listen, "127.0.0.1:8765");
    assert_eq!(copy.proxy_api_key, "k");
    assert_eq!(DEFAULT_AUTH_REFRESH_INTERVAL_SECS, 60);
    assert_eq!(OPENAI_MODELS_PATH, "/v1/models");
    assert_eq!(OPENAI_RESPONSES_PATH, "/v1/responses");
    assert_eq!(X_CLIENT_REQUEST_ID, "x-client-request-id");
}

fn run(route: ProxyRoute, events: &[ProxyEvent]) -> (ProxyFlow, Vec<ProxyAction>) {
    let mut flow = start_flow(route);
    let mut actions = Vec::new();
    for event in events {
        let (next, action) = next_step(flow, *event);
        flow = next;
        actions.push(action);
    }
    (flow, actions)
}

#[test]
fn flow_refreshes_once_on_401() {
    let (flow, actions) = run(
        ProxyRoute::Responses,
        &[
            ProxyEvent::Authorization { authorized: true },
            ProxyEvent::BodyChecked { accepted: true },
            ProxyEvent::UpstreamReply { status: 401 },
            ProxyEvent::RefreshSucceeded,
            ProxyEvent::UpstreamReply { status: 401 },
            ProxyEvent::UpstreamReply { status: 200 },
        ],
    );
    assert_eq!(
        actions,
        vec![
            ProxyAction::CheckBody,
            ProxyAction::SendUpstream,
            ProxyAction::RefreshAuth,
            ProxyAction::SendUpstream,
            ProxyAction::DeliverReply,
            ProxyAction::Ignore,
        ]
    );
    assert_eq!(flow.phase, ProxyPhase::Finished);
}

#[test]
fn flow_refuses_bad_body_without_forwarding() {
    let (flow, actions) = run(
        ProxyRoute::Responses,
        &[
            ProxyEvent::Authorization { authorized: true },
            ProxyEvent::BodyChecked { accepted: false },
            ProxyEvent::UpstreamReply { status: 200 },
        ],
    );
    assert_eq!(
        actions,
        vec![ProxyAction::CheckBody, ProxyAction::RefuseBody, ProxyAction::Ignore]
    );
    assert_eq!(flow.phase, ProxyPhase::Finished);
}

#[test]
fn flow_rejects_unauthorized_caller() {
    let (_, actions) = run(
        ProxyRoute::CodexModels,
        &[
            ProxyEvent::Authorization { authorized: false },
            ProxyEvent::Authorization { authorized: true },
            ProxyEvent::UpstreamReply { status: 200 },
        ],
    );
    assert_eq!(
        actions,
        vec![ProxyAction::RejectUnauthorized, ProxyAction::Ignore, ProxyAction::Ignore]
    );
}

#[test]
fn flow_projects_only_successful_catalogs() {
    let (_, actions) = run(
        ProxyRoute::OpenAiModels,
        &[ProxyEvent::Authorization { authorized: true }, ProxyEvent::UpstreamReply { status: 200 }],
    );
    assert_eq!(actions[1], ProxyAction::ProjectCatalog);
    let (_, actions) = run(
        ProxyRoute::OpenAiModels,
        &[ProxyEvent::Authorization { authorized: true }, ProxyEvent::UpstreamReply { status: 502 }],
    );
    assert_eq!(actions[1], ProxyAction::DeliverReply);
    let (_, actions) = run(
        ProxyRoute::CodexModels,
        &[ProxyEvent::Authorization { authorized: true }, ProxyEvent::UpstreamReply { status: 200 }],
    );
    assert_eq!(actions[1], ProxyAction::DeliverReply);
    let (_, actions) = run(
        ProxyRoute::OpenAiModels,
        &[
            ProxyEvent::Authorization { authorized: true },
            ProxyEvent::UpstreamReply { status: 401 },
            ProxyEvent::RefreshFailed,
            ProxyEvent::UpstreamReply { status: 200 },
        ],
    );
    assert_eq!(
        actions,
        vec![
            ProxyAction::SendUpstream,
            ProxyAction::RefreshAuth,
            ProxyAction::FailRefresh,
            ProxyAction::Ignore,
        ]
    );
    assert!(status_is_success(200));
    assert!(status_is_success(299));
    assert!(!status_is_success(300));
    assert!(!status_is_success(199));
}
