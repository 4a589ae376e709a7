use universal_openai_rs::audio::Audio;
use universal_openai_rs::completions::{owned_texts, CompletionChoice, CompletionResponse};
use universal_openai_rs::structured::schema_name_of;
use universal_openai_rs::text::{
    chars_of, is_blank_str, parse_u64, string_of, trim_chars, trim_end_matches_char,
    trim_start_matches_char,
};
use universal_openai_rs::{
    ApiClient, ChatRole, ChatStreamChoice, ChatStreamDelta, ChatStreamEvent, ClientError, Config,
};

fn chars(s: &str) -> Vec<char> {
    s.chars().collect()
}

#[test]
fn schema_name_is_the_last_path_segment() {
    assert_eq!(schema_name_of("my_crate::models::InvoiceSummary"), "InvoiceSummary");
    assert_eq!(schema_name_of("Profile"), "Profile");
    assert_eq!(schema_name_of("a::b::"), "");
    assert_eq!(schema_name_of(""), "");
    assert_eq!(schema_name_of("alloc::vec::Vec<u8>"), "Vec<u8>");
}

#[test]
fn parses_unsigned_numbers_like_str_parse() {
    assert_eq!(parse_u64(&chars("0")), Some(0));
    assert_eq!(parse_u64(&chars("+42")), Some(42));
    assert_eq!(parse_u64(&chars("18446744073709551615")), Some(u64::MAX));
    assert_eq!(parse_u64(&chars("18446744073709551616")), None);
    assert_eq!(parse_u64(&chars("")), None);
    assert_eq!(parse_u64(&chars("+")), None);
    assert_eq!(parse_u64(&chars("-1")), None);
    assert_eq!(parse_u64(&chars("1 2")), None);
    assert_eq!("+42".parse::<u64>().ok(), Some(42));
}

#[test]
fn trims_like_std() {
    let text = " \t\u{3000}hello world\u{a0}\n";
    assert_eq!(string_of(&trim_chars(&chars_of(text))), text.trim());
    assert_eq!(string_of(&trim_end_matches_char(&chars("a///"), '/')), "a");
    assert_eq!(string_of(&trim_start_matches_char(&chars("//a/"), '/')), "a/");
    assert!(is_blank_str(" \r\n\t"));
    assert!(!is_blank_str(" x "));
}

#[test]
fn completion_texts_and_first_choice() {
    assert_eq!(owned_texts(&["a", "b", "c"]), vec!["a", "b", "c"]);

    let response = CompletionResponse {
        id: None,
        object: None,
        created: None,
        model: None,
        choices: vec![CompletionChoice {
            text: "done".to_string(),
            index: Some(0),
            finish_reason: None,
            extra: serde_json::Map::new(),
        }],
        extra: serde_json::Map::new(),
    };
    assert_eq!(response.first_text(), Some("done"));
}

fn choice(content: Option<&str>) -> ChatStreamChoice {
    ChatStreamChoice {
        index: Some(0),
        delta: ChatStreamDelta {
            role: Some(ChatRole::Assistant),
            content: content.map(str::to_string),
            tool_calls: None,
            extra: serde_json::Map::new(),
        },
        finish_reason: None,
        extra: serde_json::Map::new(),
    }
}

#[test]
fn stream_event_text_chunks_skip_empty_choices() {
    let event = ChatStreamEvent {
        id: None,
        object: None,
        created: None,
        model: None,
        choices: vec![choice(Some("Hel")), choice(None), choice(Some("lo"))],
        extra: serde_json::Map::new(),
    };

    assert_eq!(event.text_chunks(), vec!["Hel".to_string(), "lo".to_string()]);
}

#[test]
fn file_upload_needs_a_file() {
    let client = ApiClient::new(Config::new("k")).unwrap();

    let upload = client
        .upload_file("fine-tune")
        .bytes("train.jsonl", vec![1, 2, 3])
        .extra_text("note", "first")
        .into_upload()
        .unwrap();
    assert_eq!(upload.purpose, "fine-tune");
    assert_eq!(upload.filename, "train.jsonl");
    assert_eq!(upload.bytes, vec![1, 2, 3]);
    assert_eq!(upload.extra, vec![("note".to_string(), "first".to_string())]);

    let missing = client.upload_file("assistants").into_upload();
    assert!(matches!(missing, Err(ClientError::InvalidConfig(_))));
}

#[test]
fn audio_form_fields_come_in_order() {
    let client = ApiClient::new(Config::new("k")).unwrap();

    let form = client
        .audio()
        .transcription()
        .model("whisper-1")
        .file("a.wav", vec![0, 1])
        .extra_text("temperature", "0")
        .prompt("names")
        .language("es")
        .response_format("json")
        .into_form()
        .unwrap();
    assert_eq!(form.endpoint, "audio/transcriptions");
    assert_eq!(form.model, "whisper-1");
    assert_eq!(form.filename, "a.wav");
    assert_eq!(
        form.fields,
        vec![
            ("response_format".to_string(), "json".to_string()),
            ("language".to_string(), "es".to_string()),
            ("prompt".to_string(), "names".to_string()),
            ("temperature".to_string(), "0".to_string()),
        ]
    );

    let translation = Audio::new(&client).translation().file("b.wav", vec![]).into_form();
    assert!(matches!(translation, Err(ClientError::InvalidConfig(_))));
    let form = client.audio().translation().model("whisper-1").file("b.wav", vec![]).into_form().unwrap();
    assert_eq!(form.endpoint, "audio/translations");
    assert!(form.fields.is_empty());
}
