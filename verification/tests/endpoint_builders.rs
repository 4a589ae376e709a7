use serde_json::Value;
use universal_openai_rs::completions::CompletionPrompt;
use universal_openai_rs::files::Files;
use universal_openai_rs::fine_tuning::FineTuning;
use universal_openai_rs::models::Models;
use universal_openai_rs::moderations::ModerationInput;
use universal_openai_rs::{ApiClient, ClientError, Config};

#[test]
fn builds_legacy_completion_request() {
    let client = ApiClient::new(Config::new("test-key")).unwrap();

    let request = client
        .completions()
        .model("gpt-3.5-turbo-instruct")
        .prompt("Complete this sentence")
        .temperature(0.3f32.to_bits())
        .max_tokens(64)
        .build()
        .unwrap();

    assert_eq!(request.model, "gpt-3.5-turbo-instruct");
    assert_eq!(request.prompt, CompletionPrompt::Text("Complete this sentence".to_string()));
    assert_eq!(request.temperature.map(f32::from_bits), Some(0.3));
    assert_eq!(request.max_tokens, Some(64));
    assert!(request.extra.is_empty());
}

#[test]
fn builds_image_generation_request() {
    let client = ApiClient::new(Config::new("test-key")).unwrap();

    let request = client
        .images()
        .model("gpt-image-1")
        .prompt("A clean Rust API diagram")
        .size("1024x1024")
        .b64_json()
        .build()
        .unwrap();

    assert_eq!(request.prompt, "A clean Rust API diagram");
    assert_eq!(request.response_format.as_deref(), Some("b64_json"));
}

#[test]
fn image_request_needs_a_prompt() {
    let client = ApiClient::new(Config::new("test-key")).unwrap();

    assert!(matches!(client.images().model("gpt-image-1").build(), Err(ClientError::InvalidConfig(_))));
    let url = client.images().prompt("p").url().n(2).build().unwrap();
    assert_eq!(url.response_format.as_deref(), Some("url"));
    assert_eq!(url.n, Some(2));
}

#[test]
fn builds_moderation_request() {
    let client = ApiClient::new(Config::new("test-key")).unwrap();

    let request = client
        .moderations()
        .model("omni-moderation-latest")
        .input("Please classify this content.")
        .build()
        .unwrap();

    assert_eq!(request.model.as_deref(), Some("omni-moderation-latest"));
    assert_eq!(request.input, ModerationInput::Text("Please classify this content.".to_string()));
    assert!(request.extra.is_empty());
}

#[test]
fn builds_fine_tuning_job_request() {
    let client = ApiClient::new(Config::new("test-key")).unwrap();

    let request = client
        .fine_tuning()
        .create()
        .model("gpt-4o-mini")
        .training_file("file-train")
        .validation_file("file-valid")
        .suffix("universal-openai-rs")
        .hyperparameters(serde_json::from_str::<Value>(r#"{"n_epochs":2}"#).unwrap())
        .build()
        .unwrap();

    assert_eq!(request.model, "gpt-4o-mini");
    assert_eq!(request.training_file, "file-train");
    assert_eq!(request.hyperparameters.as_ref().unwrap()["n_epochs"], 2);
}

#[test]
fn fine_tuning_job_needs_model_and_training_file() {
    let client = ApiClient::new(Config::new("test-key")).unwrap();

    let no_file = client.fine_tuning().create().model("gpt-4o-mini").build();
    assert!(matches!(no_file, Err(ClientError::InvalidConfig(_))));
    let no_model = client.fine_tuning().create().training_file("file-train").build();
    assert!(matches!(no_model, Err(ClientError::InvalidConfig(_))));
}

#[test]
fn fine_tuning_paths() {
    assert_eq!(FineTuning::list_path(), "fine_tuning/jobs");
    assert_eq!(FineTuning::job_path("ftjob-1"), "fine_tuning/jobs/ftjob-1");
    assert_eq!(FineTuning::cancel_path("ftjob-1"), "fine_tuning/jobs/ftjob-1/cancel");
    assert_eq!(Models::model_path("gpt-4o-mini"), "models/gpt-4o-mini");
    assert_eq!(Files::file_path("file-1"), "files/file-1");
    assert_eq!(Files::list_path(), "files");
    assert_eq!(Files::content_path("file-1"), "files/file-1/content");
    assert_eq!(Models::list_path(), "models");
}

#[test]
fn completion_prompts_keep_their_order() {
    let client = ApiClient::new(Config::new("test-key")).unwrap();
    let request = client.completions().model("m").prompts(&["a", "b"]).build().unwrap();

    assert_eq!(request.prompt, CompletionPrompt::Texts(vec!["a".to_string(), "b".to_string()]));
}
