use serde_json::Value;
use universal_openai_rs::tools::text_lt;
use universal_openai_rs::{
    ChatRole, ClientError, ToolCall, ToolCallFunction, ToolExecution, ToolNames, ToolSlots,
};

fn chars(s: &str) -> Vec<char> {
    s.chars().collect()
}

#[test]
fn tool_names_stay_sorted_and_unique() {
    let mut names = ToolNames::new();

    assert_eq!(names.insert("weather"), (0, true));
    assert_eq!(names.insert("calendar"), (0, true));
    assert_eq!(names.insert("search"), (1, true));
    assert_eq!(names.insert("weather"), (2, false));
    assert_eq!(names.len(), 3);
    assert_eq!(names.name(0), "calendar");
    assert_eq!(names.name(1), "search");
    assert_eq!(names.name(2), "weather");
}

#[test]
fn registry_reports_unknown_tool_names() {
    let mut names = ToolNames::new();
    names.insert("get_weather");

    assert_eq!(names.find("get_weather").unwrap(), 0);
    match names.find("missing") {
        Err(ClientError::UnknownTool(name)) => assert_eq!(name, "missing"),
        other => panic!("expected an unknown tool, got {other:?}"),
    }
    assert_eq!(names.position("missing"), None);
}

#[test]
fn text_order_matches_str_order() {
    let samples = ["", "a", "ab", "b", "B", "é", "z", "aa", "a b"];
    for x in samples {
        for y in samples {
            assert_eq!(text_lt(&chars(x), &chars(y)), x < y, "{x:?} < {y:?}");
        }
    }
}

#[test]
fn tool_execution_message_carries_json_output() {
    let output: Value = serde_json::from_str(r#"{"forecast": "sunny in Madrid"}"#).unwrap();
    let execution = ToolExecution {
        tool_call_id: "call_1".to_string(),
        name: "get_weather".to_string(),
        output,
    };
    let message = execution.message();

    assert_eq!(message.role, ChatRole::Tool);
    assert_eq!(message.tool_call_id.as_deref(), Some("call_1"));
    assert_eq!(message.content.as_text(), Some(r#"{"forecast":"sunny in Madrid"}"#));
    assert!(message.tool_calls.is_none());
}

#[test]
fn registry_reports_unknown_tools() {
    let registry = ToolNames::new();
    let call = ToolCall {
        id: "call_1".to_string(),
        kind: "function".to_string(),
        function: ToolCallFunction { name: "missing".to_string(), arguments: "{}".to_string() },
    };
    let error = registry.find(&call.function.name).unwrap_err();

    assert!(matches!(error, ClientError::UnknownTool(name) if name == "missing"));
}

#[test]
fn tool_slots_keep_the_last_item_per_name_in_name_order() {
    let mut slots = ToolSlots::new();

    assert!(slots.insert("weather", 1));
    assert!(slots.insert("calendar", 2));
    assert!(!slots.insert("weather", 3));
    assert!(slots.insert("search", 4));

    assert_eq!(slots.len(), 3);
    assert_eq!(slots.items_in_order(), &[2, 4, 3]);
    assert_eq!(slots.names_index().name(2), "weather");
    assert_eq!(slots.get("weather"), Some(&3));
    assert_eq!(slots.get("missing"), None);
    match slots.find("missing") {
        Err(ClientError::UnknownTool(name)) => assert_eq!(name, "missing"),
        other => panic!("expected an unknown tool, got {other:?}"),
    }
    assert_eq!(slots.find("calendar").unwrap(), &2);
    let copy = slots.clone();
    assert_eq!(copy.items_in_order(), &[2, 4, 3]);
}

fn weather_call() -> ToolCall {
    ToolCall {
        id: "call_7".to_string(),
        kind: "function".to_string(),
        function: ToolCallFunction {
            name: "weather".to_string(),
            arguments: "{\"city\":\"Oslo\"}".to_string(),
        },
    }
}

#[test]
fn tool_execution_answers_the_call_it_ran() {
    let call = weather_call();
    let output: Value = serde_json::from_str("{\"temp\":3}").unwrap();
    let execution = ToolExecution::from_call(&call, output.clone());

    assert_eq!(execution.tool_call_id, "call_7");
    assert_eq!(execution.name, "weather");
    assert_eq!(execution.output, output);
}

#[test]
fn tool_result_keeps_the_tools_error() {
    let call = weather_call();
    let output: Value = serde_json::from_str("[1,2]").unwrap();

    let done = ToolExecution::from_result(&call, Ok(output.clone())).unwrap();
    assert_eq!(done.tool_call_id, "call_7");
    assert_eq!(done.name, "weather");
    assert_eq!(done.output, output);

    let failed = ToolExecution::from_result(&call, Err(ClientError::MissingText));
    assert!(matches!(failed, Err(ClientError::MissingText)));
}
