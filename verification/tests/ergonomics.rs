use std::time::Duration;

use serde_json::Value;
use universal_openai_rs::{
    ApiClient, ApiError, ChatChoice, ChatCompletionResponse, ChatMessage, ClientError, Config, Provider,
    ResponsesResponse, RetryConfig,
};

#[test]
fn provider_presets_expose_openai_compatible_base_urls() {
    assert_eq!(Provider::OpenAI.base_url(), "https://api.openai.com/v1");
    assert_eq!(Provider::Ollama.base_url(), "http://localhost:11434/v1");
    assert_eq!(
        Provider::Custom("https://api.example.com/v1".to_string()).base_url(),
        "https://api.example.com/v1"
    );
}

#[test]
fn other_provider_presets() {
    assert_eq!(Provider::OpenRouter.base_url(), "https://openrouter.ai/api/v1");
    assert_eq!(Provider::Groq.base_url(), "https://api.groq.com/openai/v1");
    assert_eq!(Provider::Together.base_url(), "https://api.together.xyz/v1");
}

#[test]
fn config_trims_base_url_whitespace_and_trailing_slashes() {
    let config = Config::new("test-key").with_base_url(" https://api.example.com/v1/// ");

    assert_eq!(config.base_url(), "https://api.example.com/v1");
}

#[test]
fn new_config_defaults() {
    let config = Config::new("test-key");

    assert_eq!(config.api_key(), "test-key");
    assert_eq!(config.base_url(), "https://api.openai.com/v1");
    assert_eq!(config.timeout(), Some(Duration::from_secs(60).as_nanos()));
    assert_eq!(config.retry_config(), &RetryConfig::default());
    assert_eq!(config.default_model(), None);
    assert_eq!(config.without_timeout().timeout(), None);
}

#[test]
fn config_for_provider_and_timeout() {
    let config = Config::for_provider("k", Provider::Ollama)
        .with_timeout(Duration::from_millis(1500).as_nanos());

    assert_eq!(config.base_url(), "http://localhost:11434/v1");
    assert_eq!(config.timeout(), Some(1_500_000_000));
}

#[test]
fn config_accepts_full_retry_configuration() {
    let retry = RetryConfig {
        max_retries: 5,
        initial_backoff: Duration::from_millis(250).as_nanos(),
        max_backoff: Duration::from_secs(10).as_nanos(),
        jitter: false,
        respect_retry_after: true,
    };
    let config = Config::new("test-key").with_retry_config(retry.clone());

    assert_eq!(config.retry_config(), &retry);
    assert_eq!(config.max_retries(), 5);
}

#[test]
fn max_retries_keeps_backward_compatible_builder() {
    let config = Config::new("test-key").with_max_retries(4);

    assert_eq!(config.retry_config().max_retries, 4);
}

#[test]
fn custom_http_client_still_validates_config() {
    let error = ApiClient::with_http_client(Config::new(" "), reqwest::Client::new()).err().unwrap();

    assert!(matches!(error, ClientError::InvalidConfig(_)));
}

#[test]
fn blank_api_key_is_refused_by_every_constructor() {
    assert!(matches!(ApiClient::new(Config::new("")), Err(ClientError::InvalidConfig(_))));
    assert!(matches!(ApiClient::openai("  "), Err(ClientError::InvalidConfig(_))));
    assert!(matches!(
        ApiClient::compatible("\t", "http://localhost:8080/v1"),
        Err(ClientError::InvalidConfig(_))
    ));
    assert!(matches!(
        ApiClient::for_provider("", Provider::Groq),
        Err(ClientError::InvalidConfig(_))
    ));
}

#[test]
fn client_constructors_keep_key_and_base_url() {
    let client = ApiClient::compatible("k", "http://localhost:8080/v1/").unwrap();
    assert_eq!(client.config().api_key(), "k");
    assert_eq!(client.config().base_url(), "http://localhost:8080/v1");

    let openai = ApiClient::openai("k").unwrap();
    assert_eq!(openai.config().base_url(), "https://api.openai.com/v1");
}

#[test]
fn config_from_environment_values() {
    let missing = Config::from_env_values(None, None, None);
    assert!(matches!(missing, Err(ClientError::MissingEnv("OPENAI_API_KEY"))));

    let config = Config::from_env_values(
        Some("k".to_string()),
        Some("http://localhost:11434/v1/".to_string()),
        Some("llama3".to_string()),
    )
    .unwrap();
    assert_eq!(config.base_url(), "http://localhost:11434/v1");
    assert_eq!(config.default_model(), Some("llama3"));

    let plain = Config::from_env_values(Some("k".to_string()), None, None).unwrap();
    assert_eq!(plain.base_url(), "https://api.openai.com/v1");
}

#[test]
fn endpoint_joins_with_one_slash() {
    let config = Config::new("k").with_base_url("https://api.example.com/v1/");

    assert_eq!(config.endpoint("/chat/completions").unwrap(), "https://api.example.com/v1/chat/completions");
    assert_eq!(config.endpoint("chat/completions").unwrap(), "https://api.example.com/v1/chat/completions");
    let empty = Config::new("k").with_base_url(" / ");
    assert!(matches!(empty.endpoint("models"), Err(ClientError::InvalidConfig(_))));
}

#[test]
fn chat_response_can_parse_json_text() {
    let response = ChatCompletionResponse {
        id: None,
        object: None,
        created: None,
        model: None,
        choices: vec![ChatChoice {
            index: Some(0),
            message: ChatMessage::assistant(r#"{"title":"AI Engineer"}"#),
            finish_reason: Some("stop".to_string()),
            extra: serde_json::Map::new(),
        }],
        usage: None,
        extra: serde_json::Map::new(),
    };

    let profile: Value = serde_json::from_str(response.json_text().unwrap()).unwrap();
    assert_eq!(profile["title"], "AI Engineer");
}

#[test]
fn chat_response_without_text_reports_missing_text() {
    let response = ChatCompletionResponse {
        id: None,
        object: None,
        created: None,
        model: None,
        choices: vec![],
        usage: None,
        extra: serde_json::Map::new(),
    };

    assert_eq!(response.first_text(), None);
    assert!(matches!(response.json_text(), Err(ClientError::MissingText)));
    assert!(matches!(response.text(), Err(ClientError::MissingText)));
}

#[test]
fn responses_response_can_parse_output_text() {
    let response = ResponsesResponse {
        id: None,
        object: None,
        status: None,
        model: None,
        output: None,
        output_text: Some(r#"{"title":"AI Engineer"}"#.to_string()),
        extra: serde_json::Map::new(),
    };

    let profile: Value = serde_json::from_str(response.json_text().unwrap()).unwrap();
    assert_eq!(profile["title"], "AI Engineer");
    assert_eq!(response.text().unwrap(), r#"{"title":"AI Engineer"}"#);
}

#[test]
fn responses_response_without_output_text_reports_missing_text() {
    let response = ResponsesResponse {
        id: None,
        object: None,
        status: None,
        model: None,
        output: None,
        output_text: None,
        extra: serde_json::Map::new(),
    };

    assert!(matches!(response.json_text(), Err(ClientError::MissingText)));
    assert!(matches!(response.text(), Err(ClientError::MissingText)));
}

#[test]
fn config_stores_production_http_headers() {
    let config = Config::new("test-key")
        .with_user_agent("universal-openai-rs-test/0.1")
        .with_organization("org-test")
        .with_project("proj-test")
        .with_header("x-provider-routing", "fast");

    assert_eq!(config.user_agent(), Some("universal-openai-rs-test/0.1"));
    assert_eq!(config.organization(), Some("org-test"));
    assert_eq!(config.project(), Some("proj-test"));
    assert_eq!(config.headers().len(), 1);
}

#[test]
fn custom_http_client_rejects_invalid_headers() {
    let config = Config::new("test-key").with_header("bad header", "value");
    let error = ApiClient::with_http_client(config, reqwest::Client::new()).err().unwrap();

    assert!(matches!(error, ClientError::InvalidConfig(_)));
}

#[test]
fn header_checks_follow_http_rules() {
    assert!(Config::new("k").with_header("X-Trace_Id.2", "a\tb ~ é").check_headers().is_ok());
    assert!(Config::new("k").with_header("", "v").check_headers().is_err());
    assert!(Config::new("k").with_header("x-ok", "line\nbreak").check_headers().is_err());
    assert!(Config::new("k").with_header("caf\u{e9}", "v").check_headers().is_err());
    assert!(Config::new("k").with_user_agent("bad\u{7f}").check_headers().is_err());
    assert!(Config::new("k").with_organization("org\r").check_headers().is_err());
    assert!(Config::new("k").with_project("proj-1").check_headers().is_ok());
    assert!(matches!(
        ApiClient::new(Config::new("k").with_project("p\u{0}")),
        Err(ClientError::InvalidConfig(_))
    ));
    let config = Config::new("k").with_header("a", "1").with_header("b", "2");
    assert_eq!(
        config.headers(),
        &[("a".to_string(), "1".to_string()), ("b".to_string(), "2".to_string())]
    );
}

#[test]
fn api_error_extracts_openai_compatible_fields_and_request_id() {
    let mut headers = reqwest::header::HeaderMap::new();
    headers.insert("x-request-id", reqwest::header::HeaderValue::from_static("req_123"));

    let error = ApiError::from_parts(
        reqwest::StatusCode::BAD_REQUEST,
        &headers,
        r#"{"error":{"type":"invalid_request_error","code":"bad_model","param":"model"}}"#,
    );

    assert_eq!(error.status, reqwest::StatusCode::BAD_REQUEST);
    assert_eq!(error.error_type.as_deref(), Some("invalid_request_error"));
    assert_eq!(error.code.as_deref(), Some("bad_model"));
    assert_eq!(error.param.as_deref(), Some("model"));
    assert_eq!(error.request_id.as_deref(), Some("req_123"));
}

#[test]
fn api_error_keeps_raw_body_for_non_json_provider_errors() {
    let headers = reqwest::header::HeaderMap::new();
    let error = ApiError::from_parts(reqwest::StatusCode::BAD_GATEWAY, &headers, "upstream down");

    assert_eq!(error.body, "upstream down");
    assert_eq!(error.error_type, None);
    assert_eq!(error.code, None);
    assert_eq!(error.param, None);
    assert_eq!(error.request_id, None);
}

#[test]
fn api_error_reads_message_and_ignores_non_text_fields() {
    let mut headers = reqwest::header::HeaderMap::new();
    headers.insert("X-Request-Id", reqwest::header::HeaderValue::from_static("req_9"));
    let error = ApiError::from_parts(
        reqwest::StatusCode::TOO_MANY_REQUESTS,
        &headers,
        r#"{"error":{"message":"slow down","code":429,"type":null}}"#,
    );

    assert_eq!(error.message.as_deref(), Some("slow down"));
    assert_eq!(error.code, None);
    assert_eq!(error.error_type, None);
    assert_eq!(error.request_id.as_deref(), Some("req_9"));
    assert_eq!(error.body, r#"{"error":{"message":"slow down","code":429,"type":null}}"#);
}

#[test]
fn responses_response_extracts_text_from_output_items() {
    let response = ResponsesResponse {
        id: None,
        object: None,
        status: None,
        model: None,
        output: Some(vec![serde_json::from_str(
            r#"{"type":"message","content":[{"type":"output_text","text":"fallback text"}]}"#,
        )
        .unwrap()]),
        output_text: None,
        extra: serde_json::Map::new(),
    };

    assert_eq!(response.first_text(), Some("fallback text"));
    assert_eq!(response.text().unwrap(), "fallback text");
}

#[test]
fn response_text_skips_items_without_output_text() {
    let items: Vec<Value> = vec![
        serde_json::from_str(r#"{"type":"reasoning","content":[{"type":"output_text","text":"no"}]}"#).unwrap(),
        serde_json::from_str(r#"{"type":"message","content":[{"type":"refusal","text":"no"}]}"#).unwrap(),
        serde_json::from_str(r#"{"type":"message","content":[{"type":"output_text","text":"yes"}]}"#).unwrap(),
    ];
    let response = ResponsesResponse {
        id: None,
        object: None,
        status: None,
        model: None,
        output: Some(items),
        output_text: None,
        extra: serde_json::Map::new(),
    };

    assert_eq!(response.first_text(), Some("yes"));
    let with_text = ResponsesResponse { output_text: Some("direct".to_string()), ..response };
    assert_eq!(with_text.first_text(), Some("direct"));
}

#[test]
fn config_debug_redacts_api_key_and_header_values() {
    let config = Config::new("sk-secret-test-key")
        .with_base_url("https://api.example.com/v1")
        .with_header("x-provider-secret", "secret-header-value")
        .with_default_model("gpt-4o-mini");

    let debug = config.debug_text();

    assert!(debug.contains("api_key: \"<redacted>\""));
    assert!(debug.contains("https://api.example.com/v1"));
    assert!(debug.contains("x-provider-secret"));
    assert!(!debug.contains("sk-secret-test-key"));
    assert!(!debug.contains("secret-header-value"));
}

#[test]
fn config_description_lists_every_text_setting() {
    let config = Config::new("k")
        .with_base_url("http://localhost:8080/v1")
        .with_user_agent("agent/1")
        .with_header("a", "1")
        .with_header("b", "2");

    assert_eq!(
        config.debug_text(),
        "Config { api_key: \"<redacted>\", base_url: \"http://localhost:8080/v1\", default_model: None, \
         user_agent: Some(\"agent/1\"), organization: None, project: None, \
         headers: [(\"a\", \"<redacted>\"), (\"b\", \"<redacted>\")] }"
    );
}

#[test]
fn request_headers_list_fixed_headers_then_extra_ones() {
    let config = Config::new("k")
        .with_header("x-a", "1")
        .with_project("proj")
        .with_user_agent("agent/1");

    assert_eq!(
        config.request_headers(),
        vec![
            ("user-agent".to_string(), "agent/1".to_string()),
            ("openai-project".to_string(), "proj".to_string()),
            ("x-a".to_string(), "1".to_string()),
        ]
    );
    assert!(Config::new("k").request_headers().is_empty());
}
