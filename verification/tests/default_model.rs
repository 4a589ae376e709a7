use universal_openai_rs::{ApiClient, ClientError, Config};

#[test]
fn default_model_preloads_chat_builder() {
    let client = ApiClient::new(Config::new("test-key").with_default_model("gpt-4o-mini")).unwrap();

    let request = client
        .chat_default()
        .unwrap()
        .user("Hello")
        .build()
        .unwrap();

    assert_eq!(request.model, "gpt-4o-mini");
}

#[test]
fn chat_default_without_default_model_is_refused() {
    let client = ApiClient::new(Config::new("test-key")).unwrap();

    assert!(matches!(client.chat_default(), Err(ClientError::InvalidConfig(_))));
}

#[test]
fn plain_chat_builder_does_not_take_the_default_model() {
    let client = ApiClient::new(Config::new("test-key").with_default_model("gpt-4o-mini")).unwrap();
    let refused = client.chat().user("Hello").build();

    assert!(matches!(refused, Err(ClientError::InvalidConfig(_))));
    assert_eq!(client.default_model(), Some("gpt-4o-mini"));
}
