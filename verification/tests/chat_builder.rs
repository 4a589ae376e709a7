use serde_json::Value;
use universal_openai_rs::{
    ApiClient, ChatContent, ChatContentPart, ChatMessage, ChatRole, ClientError, Config,
    ResponseFormat, Tool,
};

fn json(text: &str) -> Value {
    serde_json::from_str(text).unwrap()
}

#[test]
fn builds_openai_compatible_chat_request() {
    let client = ApiClient::new(Config::new("test-key")).unwrap();

    let request = client
        .chat()
        .model("gpt-4o-mini")
        .system("Be concise.")
        .user("Say hello.")
        .temperature(0.1f32.to_bits())
        .max_tokens(32)
        .extra("top_p", Value::from(0.9))
        .build()
        .unwrap();

    assert_eq!(request.model, "gpt-4o-mini");
    assert_eq!(
        request.messages,
        vec![ChatMessage::system("Be concise."), ChatMessage::user("Say hello.")]
    );
    assert_eq!(request.messages[0].role, ChatRole::System);
    assert_eq!(request.messages[0].content.as_text(), Some("Be concise."));
    assert_eq!(request.messages[1].role, ChatRole::User);
    assert_eq!(request.messages[1].content.as_text(), Some("Say hello."));
    assert_eq!(request.temperature.map(f32::from_bits), Some(0.1));
    assert_eq!(request.max_tokens, Some(32));
    assert_eq!(request.extra.get("top_p"), Some(&Value::from(0.9)));
    assert_eq!(request.extra.len(), 1);
    assert_eq!(request.stream, None);
    assert_eq!(request.tools, None);
    assert_eq!(request.tool_choice, None);
    assert_eq!(request.response_format, None);
}

#[test]
fn rejects_missing_model() {
    let client = ApiClient::new(Config::new("test-key")).unwrap();
    let error = client.chat().user("Hello").build().unwrap_err();

    assert!(matches!(error, ClientError::InvalidConfig(_)));
}

#[test]
fn rejects_missing_messages() {
    let client = ApiClient::new(Config::new("test-key")).unwrap();
    let error = client.chat().model("gpt-4o-mini").build().unwrap_err();

    assert!(matches!(error, ClientError::InvalidConfig(_)));
}

#[test]
fn rejects_blank_model() {
    let client = ApiClient::new(Config::new("test-key")).unwrap();
    let error = client.chat().model("  ").user("Hello").build().unwrap_err();

    assert!(matches!(error, ClientError::InvalidConfig(_)));
}

#[test]
fn serializes_chat_message_roles() {
    let message = ChatMessage {
        role: ChatRole::Assistant,
        content: ChatContent::text("Done."),
        tool_call_id: None,
        tool_calls: None,
    };

    assert_eq!(message, ChatMessage::assistant("Done."));
    assert_eq!(message.role, ChatRole::Assistant);
    assert_eq!(message.content, ChatContent::Text("Done.".to_string()));
}

#[test]
fn builds_multimodal_chat_message() {
    let client = ApiClient::new(Config::new("test-key")).unwrap();

    let request = client
        .chat()
        .model("gpt-4o-mini")
        .user_parts(vec![
            ChatContentPart::text("Describe this image."),
            ChatContentPart::image_url("https://example.com/image.png"),
        ])
        .build()
        .unwrap();

    match &request.messages[0].content {
        ChatContent::Parts(parts) => {
            assert!(matches!(&parts[0], ChatContentPart::Text { text } if text == "Describe this image."));
            assert!(matches!(
                &parts[1],
                ChatContentPart::ImageUrl { image_url } if image_url.url == "https://example.com/image.png"
            ));
        }
        other => panic!("expected parts, got {other:?}"),
    }
    assert_eq!(request.messages[0].role, ChatRole::User);
    assert_eq!(request.messages[0].content.as_text(), None);
}

#[test]
fn builds_image_part_with_detail() {
    let part = ChatContentPart::image_url_detail("https://example.com/image.png", "high");

    match part {
        ChatContentPart::ImageUrl { image_url } => {
            assert_eq!(image_url.url, "https://example.com/image.png");
            assert_eq!(image_url.detail.as_deref(), Some("high"));
        }
        other => panic!("expected an image part, got {other:?}"),
    }
}

#[test]
fn builds_structured_output_and_tools_request() {
    let client = ApiClient::new(Config::new("test-key")).unwrap();

    let weather_tool = Tool::function(
        "get_weather",
        "Get the current weather for a city.",
        json(r#"{"type":"object","properties":{"city":{"type":"string"}},"required":["city"]}"#),
    );

    let request = client
        .chat()
        .model("gpt-4o-mini")
        .user("What is the weather in Madrid?")
        .tool(weather_tool)
        .json_schema(
            "weather_answer",
            json(
                r#"{"type":"object","properties":{"city":{"type":"string"},"summary":{"type":"string"}},"required":["city","summary"]}"#,
            ),
        )
        .build()
        .unwrap();

    let tools = request.tools.as_ref().unwrap();
    assert_eq!(tools[0].kind, "function");
    assert_eq!(tools[0].function.name, "get_weather");
    match request.response_format.as_ref().unwrap() {
        ResponseFormat::JsonSchema { name, schema } => {
            assert_eq!(name, "weather_answer");
            assert_eq!(schema["required"][1], "summary");
        }
        other => panic!("expected a schema format, got {other:?}"),
    }
}

#[test]
fn message_constructors_set_role_and_text() {
    let tool = ChatMessage::tool("call_1", "sunny");

    assert_eq!(tool.role, ChatRole::Tool);
    assert_eq!(tool.tool_call_id.as_deref(), Some("call_1"));
    assert_eq!(tool.content.as_text(), Some("sunny"));
    assert_eq!(ChatMessage::system("s").role, ChatRole::System);
    assert_eq!(ChatMessage::user("u").role, ChatRole::User);
    assert_eq!(ChatContent::Null.as_text(), None);
}

#[test]
fn json_object_and_streaming_flags() {
    let client = ApiClient::new(Config::new("test-key")).unwrap();
    let request = client
        .chat()
        .model("m")
        .assistant("earlier answer")
        .json_object()
        .streaming()
        .tool_choice(Value::from("auto"))
        .build()
        .unwrap();

    assert_eq!(request.response_format, Some(ResponseFormat::JsonObject));
    assert_eq!(request.stream, Some(true));
    assert_eq!(request.tool_choice, Some(Value::from("auto")));
    assert_eq!(request.messages[0].role, ChatRole::Assistant);
}

#[test]
fn later_schema_replaces_json_object() {
    let client = ApiClient::new(Config::new("test-key")).unwrap();
    let request = client
        .chat()
        .model("m")
        .user("hi")
        .json_object()
        .json_schema("answer", json(r#"{"type":"object"}"#))
        .build()
        .unwrap();

    assert!(matches!(request.response_format, Some(ResponseFormat::JsonSchema { ref name, .. }) if name == "answer"));
}
