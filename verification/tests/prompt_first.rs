use serde_json::Value;
use universal_openai_rs::{ApiClient, ChatRole, ClientError, Config, ResponseFormat, Tool};

fn json(text: &str) -> Value {
    serde_json::from_str(text).unwrap()
}

#[test]
fn prompt_builder_uses_default_model() {
    let client = ApiClient::new(Config::new("test-key").with_default_model("gpt-4o-mini")).unwrap();

    let request = client
        .prompt("Explain OpenAI-compatible APIs.")
        .system("Be concise.")
        .temperature(0.2f32.to_bits())
        .into_chat()
        .unwrap()
        .build()
        .unwrap();

    assert_eq!(request.model, "gpt-4o-mini");
    assert_eq!(request.messages.len(), 2);
    assert_eq!(request.temperature, Some(0.2f32.to_bits()));
}

#[test]
fn prompt_builder_can_attach_schema_and_tools() {
    let client = ApiClient::new(Config::new("test-key")).unwrap();

    let request = client
        .prompt("Should I bring an umbrella?")
        .model("gpt-4o-mini")
        .tool(Tool::function(
            "get_weather",
            "Get weather for a city.",
            json(r#"{"type":"object","properties":{"city":{"type":"string"}},"required":["city"]}"#),
        ))
        .json_schema(
            "packing_advice",
            json(r#"{"type":"object","properties":{"bring_umbrella":{"type":"boolean"}},"required":["bring_umbrella"]}"#),
        )
        .into_chat()
        .unwrap()
        .build()
        .unwrap();

    assert_eq!(request.tools.as_ref().unwrap()[0].function.name, "get_weather");
    assert!(matches!(
        request.response_format,
        Some(ResponseFormat::JsonSchema { ref name, .. }) if name == "packing_advice"
    ));
}

#[test]
fn prompt_without_any_model_is_refused() {
    let client = ApiClient::new(Config::new("test-key")).unwrap();

    assert!(matches!(client.prompt("Hi").into_chat(), Err(ClientError::InvalidConfig(_))));
}

#[test]
fn prompt_puts_system_before_user_and_schema_wins_over_json_object() {
    let client = ApiClient::new(Config::new("test-key")).unwrap();
    let request = client
        .prompt("Question?")
        .model("m")
        .system("Rules.")
        .max_tokens(7)
        .json_object()
        .json_schema("answer", json(r#"{"type":"object"}"#))
        .into_chat()
        .unwrap()
        .build()
        .unwrap();

    assert_eq!(request.messages[0].role, ChatRole::System);
    assert_eq!(request.messages[0].content.as_text(), Some("Rules."));
    assert_eq!(request.messages[1].role, ChatRole::User);
    assert_eq!(request.messages[1].content.as_text(), Some("Question?"));
    assert_eq!(request.max_tokens, Some(7));
    assert!(matches!(request.response_format, Some(ResponseFormat::JsonSchema { .. })));

    let plain = client.prompt("Q").model("m").json_object().into_chat().unwrap().build().unwrap();
    assert_eq!(plain.response_format, Some(ResponseFormat::JsonObject));
    assert_eq!(plain.messages.len(), 1);
}
