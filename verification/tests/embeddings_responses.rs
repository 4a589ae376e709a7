use serde_json::Value;
use universal_openai_rs::structured::schema_name_of;
use universal_openai_rs::{
    ApiClient, ClientError, Config, EmbeddingInput, ResponseContentPart, ResponseInput, Tool,
};



fn json(text: &str) -> Value {
    serde_json::from_str(text).unwrap()
}

#[test]
fn builds_embeddings_request() {
    let client = ApiClient::new(Config::new("test-key")).unwrap();

    let request = client
        .embeddings()
        .model("text-embedding-3-small")
        .inputs(&["hello", "world"])
        .dimensions(512)
        .build()
        .unwrap();

    assert_eq!(request.model, "text-embedding-3-small");
    assert_eq!(
        request.input,
        EmbeddingInput::Texts(vec!["hello".to_string(), "world".to_string()])
    );
    assert_eq!(request.dimensions, Some(512));
    assert_eq!(request.encoding_format, None);
    assert!(request.extra.is_empty());
}

#[test]
fn embeddings_request_needs_model_and_input() {
    let client = ApiClient::new(Config::new("test-key")).unwrap();

    let no_model = client.embeddings().input("hello").build();
    assert!(matches!(no_model, Err(ClientError::InvalidConfig(_))));
    let no_input = client.embeddings().model("text-embedding-3-small").build();
    assert!(matches!(no_input, Err(ClientError::InvalidConfig(_))));
}

#[test]
fn builds_responses_request_with_schema_and_tool() {
    let client = ApiClient::new(Config::new("test-key")).unwrap();

    let request = client
        .responses()
        .model("gpt-4o-mini")
        .instructions("Return concise JSON.")
        .input("Summarize the latest invoice.")
        .tool(Tool::function(
            "lookup_invoice",
            "Look up invoice metadata.",
            json(r#"{"type":"object","properties":{"invoice_id":{"type":"string"}},"required":["invoice_id"]}"#),
        ))
        .json_schema(
            "invoice_summary",
            json(
                r#"{"type":"object","properties":{"status":{"type":"string"},"amount":{"type":"number"}},"required":["status","amount"]}"#,
            ),
        )
        .build()
        .unwrap();

    assert_eq!(request.model, "gpt-4o-mini");
    assert_eq!(request.tools.as_ref().unwrap()[0].function.name, "lookup_invoice");
    assert_eq!(request.text.as_ref().unwrap().name, "invoice_summary");
    assert_eq!(request.instructions.as_deref(), Some("Return concise JSON."));
    assert_eq!(request.input, ResponseInput::Text("Summarize the latest invoice.".to_string()));
}

#[test]
fn respond_preloads_input() {
    let client = ApiClient::new(Config::new("test-key")).unwrap();
    let request = client
        .respond("Summarize the latest invoice.")
        .model("gpt-4.1-mini")
        .instructions("Return concise JSON.")
        .build()
        .unwrap();

    assert_eq!(request.model, "gpt-4.1-mini");
    assert_eq!(request.input, ResponseInput::Text("Summarize the latest invoice.".to_string()));
}

#[test]
fn responses_request_needs_model_and_input() {
    let client = ApiClient::new(Config::new("test-key")).unwrap();

    assert!(matches!(client.responses().input("x").build(), Err(ClientError::InvalidConfig(_))));
    assert!(matches!(client.responses().model("m").build(), Err(ClientError::InvalidConfig(_))));
}

#[test]
fn responses_input_items_are_kept_in_order() {
    let client = ApiClient::new(Config::new("test-key")).unwrap();
    let items = vec![json(r#"{"role":"user","content":"a"}"#), json(r#"{"role":"user","content":"b"}"#)];
    let request = client
        .responses()
        .model("gpt-4o-mini")
        .input_items(items.clone())
        .temperature(0.5f32.to_bits())
        .max_output_tokens(50)
        .build()
        .unwrap();

    assert_eq!(request.input, ResponseInput::Items(items));
    assert_eq!(request.temperature.map(f32::from_bits), Some(0.5));
    assert_eq!(request.max_output_tokens, Some(50));
}

#[test]
fn builds_multimodal_responses_request() {
    let client = ApiClient::new(Config::new("test-key")).unwrap();

    let request = client
        .responses()
        .model("gpt-4o-mini")
        .user_parts(vec![
            ResponseContentPart::text("Describe this image."),
            ResponseContentPart::image_url("https://example.com/image.png"),
        ])
        .build()
        .unwrap();

    match &request.input {
        ResponseInput::Messages(messages) => {
            assert_eq!(messages.len(), 1);
            assert_eq!(messages[0].role, "user");
            assert!(matches!(
                &messages[0].content[0],
                ResponseContentPart::InputText { text } if text == "Describe this image."
            ));
            assert!(matches!(
                &messages[0].content[1],
                ResponseContentPart::InputImage { image_url, detail: None }
                    if image_url == "https://example.com/image.png"
            ));
        }
        other => panic!("expected input messages, got {other:?}"),
    }
}

#[test]
fn builds_responses_first_request_from_client_respond() {
    let client = ApiClient::new(Config::new("test-key")).unwrap();
    let request = client
        .respond("Summarize the latest invoice.")
        .model("gpt-4.1-mini")
        .instructions("Return concise JSON.")
        .json_schema(
            &schema_name_of("embeddings_responses::InvoiceSummary"),
            json(
                r#"{"type":"object","properties":{"status":{"type":"string"},"amount":{"type":"number"}},"required":["status","amount"]}"#,
            ),
        )
        .build()
        .unwrap();

    assert_eq!(request.model, "gpt-4.1-mini");
    assert_eq!(request.input, ResponseInput::Text("Summarize the latest invoice.".to_string()));
    assert_eq!(request.text.as_ref().unwrap().name, "InvoiceSummary");
}

#[test]
fn image_part_with_detail_for_responses() {
    let part = ResponseContentPart::image_url_detail("https://example.com/a.png", "low");

    assert_eq!(
        part,
        ResponseContentPart::InputImage {
            image_url: "https://example.com/a.png".to_string(),
            detail: Some("low".to_string()),
        }
    );
}

#[test]
fn responses_response_exposes_typed_output_items_and_function_calls() {
    let response = universal_openai_rs::ResponsesResponse {
        id: None,
        object: None,
        status: None,
        model: None,
        output: Some(vec![
            json(r#"{"type":"message","content":[{"type":"output_text","text":"done"}]}"#),
            json(
                r#"{"type":"function_call","name":"lookup_invoice","arguments":"{\"invoice_id\":\"inv_1\"}","call_id":"call_1"}"#,
            ),
        ]),
        output_text: None,
        extra: serde_json::Map::new(),
    };

    let items = response.output_items().unwrap();
    assert_eq!(items.len(), 2);
    assert_eq!(items[0].content.as_ref().unwrap()[0].text.as_deref(), Some("done"));

    let calls = response.function_calls().unwrap();
    assert_eq!(calls[0].name.as_deref(), Some("lookup_invoice"));
    assert_eq!(calls[0].call_id.as_deref(), Some("call_1"));
    assert_eq!(calls.len(), 1);
    assert_eq!(calls[0].arguments.as_deref(), Some(r#"{"invoice_id":"inv_1"}"#));
}

#[test]
fn responses_without_output_have_no_items() {
    let response = universal_openai_rs::ResponsesResponse {
        id: None,
        object: None,
        status: None,
        model: None,
        output: None,
        output_text: None,
        extra: serde_json::Map::new(),
    };

    assert!(response.output_items().is_none());
    assert!(response.function_calls().is_none());
    assert_eq!(response.first_text(), None);
}
