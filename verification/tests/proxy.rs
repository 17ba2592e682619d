use codex_auth_proxy::bearer_is_authorized;
use codex_auth_proxy::copy_response_headers;
use codex_auth_proxy::models_url;
use codex_auth_proxy::normalize_responses_body;
use codex_auth_proxy::openai_models_body_from_codex_catalog;
use codex_auth_proxy::resolve_installation_id;
use codex_auth_proxy::responses_url;
use codex_auth_proxy::startup_message;
use codex_auth_proxy::upstream_headers;
use codex_auth_proxy::DEFAULT_CODEX_CLIENT_VERSION;
use codex_auth_proxy::X_CODEX_INSTALLATION_ID;
use http::header;
use http::HeaderMap;
use http::HeaderValue;
use serde_json::Value;

#[test]
fn responses_url_targets_codex_backend_responses_endpoint() {
    assert_eq!(
        responses_url("https://chatgpt.com/backend-api/codex/"),
        "https://chatgpt.com/backend-api/codex/responses"
    );
}

#[test]
fn models_url_targets_codex_backend_models_endpoint_with_client_version() {
    assert_eq!(
        models_url(
            "https://chatgpt.com/backend-api/codex/",
            DEFAULT_CODEX_CLIENT_VERSION
        ),
        "https://chatgpt.com/backend-api/codex/models?client_version=0.142.2"
    );
}

#[test]
fn openai_models_body_projects_codex_catalog_slugs() {
    let body = br#"{
        "models": [
            {
                "slug": "gpt-test",
                "display_name": "GPT Test",
                "service_tiers": [{"id": "priority", "display_name": "Fast"}]
            },
            {
                "slug": "gpt-other",
                "display_name": "GPT Other"
            }
        ]
    }"#;

    let projected = openai_models_body_from_codex_catalog(body).expect("project catalog");
    let value: Value = serde_json::from_slice(&projected).expect("json");

    assert_eq!(value["object"], "list");
    assert_eq!(value["data"][0]["id"], "gpt-test");
    assert_eq!(value["data"][0]["object"], "model");
    assert_eq!(value["data"][0]["created"], 0);
    assert_eq!(value["data"][0]["owned_by"], "openai");
    assert_eq!(value["data"][1]["id"], "gpt-other");
}

#[test]
fn bearer_authorization_requires_exact_proxy_key() {
    let mut headers = HeaderMap::new();
    headers.insert(
        header::AUTHORIZATION,
        HeaderValue::from_static("Bearer local-secret"),
    );

    assert!(bearer_is_authorized(&headers, "local-secret"));
    assert!(!bearer_is_authorized(&headers, "wrong"));
}

#[test]
fn upstream_headers_add_codex_account_routing_without_proxy_key() {
    let headers = upstream_headers("codex-token", Some("account-123"), true);

    assert_eq!(
        headers
            .get(header::AUTHORIZATION)
            .and_then(|v| v.to_str().ok()),
        Some("Bearer codex-token")
    );
    assert_eq!(
        headers
            .get("ChatGPT-Account-ID")
            .and_then(|v| v.to_str().ok()),
        Some("account-123")
    );
    assert_eq!(
        headers
            .get("X-OpenAI-Fedramp")
            .and_then(|v| v.to_str().ok()),
        Some("true")
    );
}

#[test]
fn resolve_installation_id_reuses_existing_uuid() {
    let id = uuid::Uuid::new_v4().to_string();
    let contents = format!("{id}\n");

    let resolved = resolve_installation_id(Some(&contents), [7; 16]);

    assert_eq!(resolved.id, id);
    assert!(!resolved.is_new);
}

#[test]
fn normalize_responses_body_forces_codex_required_fields() {
    let body = br#"{
        "model": "gpt-5.5",
        "store": true,
        "stream": false,
        "input": [{"role":"user","content":[{"type":"input_text","text":"hi"}]}],
        "client_metadata": {"existing": "kept"}
    }"#;

    let normalized = normalize_responses_body(body, "11111111-1111-4111-8111-111111111111")
        .expect("normalize body");
    let value: Value = serde_json::from_slice(&normalized).expect("json");

    assert_eq!(value["store"], false);
    assert_eq!(value["stream"], true);
    assert_eq!(value["client_metadata"]["existing"], "kept");
    assert_eq!(
        value["client_metadata"][X_CODEX_INSTALLATION_ID],
        "11111111-1111-4111-8111-111111111111"
    );
}

#[test]
fn normalize_responses_body_rejects_string_input() {
    let err = normalize_responses_body(br#"{"model":"gpt-5.5","input":"hi"}"#, "id")
        .expect_err("string input should fail");

    assert_eq!(err, "input must be a list");
}

#[test]
fn copied_response_headers_exclude_upstream_auth_and_hop_by_hop_headers() {
    let mut headers = HeaderMap::new();
    headers.insert(
        header::CONTENT_TYPE,
        HeaderValue::from_static("application/json"),
    );
    headers.insert(
        header::AUTHORIZATION,
        HeaderValue::from_static("Bearer secret"),
    );
    headers.insert(header::CONNECTION, HeaderValue::from_static("keep-alive"));
    headers.insert("x-request-id", HeaderValue::from_static("req_123"));

    let copied = copy_response_headers(&headers);

    assert_eq!(
        copied
            .get(header::CONTENT_TYPE)
            .and_then(|v| v.to_str().ok()),
        Some("application/json")
    );
    assert_eq!(
        copied.get("x-request-id").and_then(|v| v.to_str().ok()),
        Some("req_123")
    );
    assert!(!copied.contains_key(header::AUTHORIZATION));
    assert!(!copied.contains_key(header::CONNECTION));
}

#[test]
fn startup_message_shows_listen_url_and_endpoints() {
    let message = startup_message("127.0.0.1:8765");

    assert!(message.contains("http://127.0.0.1:8765"));
    assert!(message.contains("GET /v1/models"));
    assert!(message.contains("POST /v1/responses"));
}
