use serde_json::Value;
use universal_openai_rs::{
    ClientError, JsonLinesDecoder, LenientSseDecoder, LineBuffer, OpenAiSseDecoder, Result,
    StreamDecoder, StreamReader,
};

const EVENT: &str = r#"{"choices":[{"index":0,"delta":{"content":"hello"}}]}"#;

fn delta_content(event: &Value) -> Option<&str> {
    event["choices"][0]["delta"]["content"].as_str()
}

fn json(text: &str) -> Value {
    serde_json::from_str(text).unwrap()
}

fn decoded<D: StreamDecoder<Event = Value>>(decoder: &mut D, line: &str) -> Option<Value> {
    decoder.decode_line(line).unwrap()
}

#[test]
fn openai_sse_decoder_reads_data_lines() {
    let mut decoder = OpenAiSseDecoder::new();
    let event = decoder.decode_line(&format!("data: {EVENT}")).unwrap().unwrap();

    assert_eq!(delta_content(&event), Some("hello"));
    assert!(decoder.decode_line("data: [DONE]").unwrap().is_none());
}

#[test]
fn lenient_sse_decoder_accepts_raw_json_lines() {
    let mut decoder = LenientSseDecoder::new();
    let event = decoder.decode_line(EVENT).unwrap().unwrap();

    assert_eq!(delta_content(&event), Some("hello"));
}

#[test]
fn json_lines_decoder_accepts_json_lines() {
    let mut decoder = JsonLinesDecoder::new();
    let event = decoder.decode_line(EVENT).unwrap().unwrap();

    assert_eq!(delta_content(&event), Some("hello"));
}

#[test]
fn openai_sse_decoder_skips_other_lines_and_stops_after_done() {
    let mut decoder = OpenAiSseDecoder::new();

    assert_eq!(decoded(&mut decoder, ""), None);
    assert_eq!(decoded(&mut decoder, "event: message"), None);
    assert_eq!(decoded(&mut decoder, ": keep-alive"), None);
    assert_eq!(decoded(&mut decoder, EVENT), None);
    assert_eq!(decoded(&mut decoder, "  data:  {\"a\":1}  \r\n"), Some(json("{\"a\":1}")));
    assert_eq!(decoded(&mut decoder, "data: [DONE]"), None);
    assert_eq!(decoded(&mut decoder, "data: {\"a\":2}"), None);
}

#[test]
fn lenient_sse_decoder_ends_on_done_in_any_case() {
    let mut decoder = LenientSseDecoder::new();

    assert_eq!(decoded(&mut decoder, "id: 7"), None);
    assert_eq!(decoded(&mut decoder, "data: {\"a\":1}"), Some(json("{\"a\":1}")));
    assert_eq!(decoded(&mut decoder, "DONE"), None);
    assert_eq!(decoded(&mut decoder, "{\"a\":2}"), None);
}

#[test]
fn json_lines_decoder_skips_blank_and_done_lines_without_ending() {
    let mut decoder = JsonLinesDecoder::new();

    assert_eq!(decoded(&mut decoder, "   "), None);
    assert_eq!(decoded(&mut decoder, "[DONE]"), None);
    assert_eq!(decoded(&mut decoder, "Done"), None);
    assert_eq!(decoded(&mut decoder, " {\"a\":1} "), Some(json("{\"a\":1}")));
}

#[test]
fn decoders_fail_on_payloads_that_are_not_json() {
    let mut strict = OpenAiSseDecoder::new();
    assert!(matches!(strict.decode_line("data: {oops"), Err(ClientError::Json(_))));
    assert_eq!(decoded(&mut strict, "data: {\"a\":1}"), Some(json("{\"a\":1}")));

    let mut lenient = LenientSseDecoder::new();
    assert!(matches!(lenient.decode_line("not json"), Err(ClientError::Json(_))));

    let mut lines = JsonLinesDecoder::new();
    assert!(matches!(lines.decode_line("[1,"), Err(ClientError::Json(_))));
}

#[test]
fn line_buffer_cuts_text_into_complete_lines() {
    let mut buffer = LineBuffer::new();

    assert!(buffer.push_text("data: {\"a\"").is_empty());
    let lines = buffer.push_text(":1}\n\ndata: [DO");
    assert_eq!(lines, vec!["data: {\"a\":1}\n".to_string(), "\n".to_string()]);
    let lines = buffer.push_text("NE]\nrest");
    assert_eq!(lines, vec!["data: [DONE]\n".to_string()]);
    assert_eq!(buffer.finish().as_deref(), Some("rest"));
}

#[test]
fn line_buffer_drops_blank_remainder() {
    let mut buffer = LineBuffer::new();
    assert_eq!(buffer.push_text("one\n  ").len(), 1);
    assert_eq!(buffer.finish(), None);
}

fn events(items: Vec<Result<Value>>) -> Vec<Value> {
    items.into_iter().map(|item| item.unwrap()).collect()
}

#[test]
fn stream_reader_gives_events_of_complete_lines() {
    let mut reader = StreamReader::new(OpenAiSseDecoder::new());

    assert!(reader.push("data: {\"a\"").is_empty());
    assert_eq!(
        events(reader.push(":1}\n\nevent: x\ndata: {\"b\":2}\r\n")),
        vec![json("{\"a\":1}"), json("{\"b\":2}")]
    );
    assert!(reader.push("data: [DONE]\ndata: {\"c\":3}\n").is_empty());
    assert_eq!(reader.finish().unwrap(), None);
}

#[test]
fn stream_reader_decodes_the_unterminated_last_line() {
    let mut reader = StreamReader::new(JsonLinesDecoder::new());

    assert_eq!(events(reader.push("{\"a\":1}\n{\"b\"")), vec![json("{\"a\":1}")]);
    assert_eq!(reader.push(":2}").len(), 0);
    assert_eq!(reader.finish().unwrap(), Some(json("{\"b\":2}")));
}

#[test]
fn stream_reader_stops_at_the_first_line_it_cannot_read() {
    let mut reader = StreamReader::new(OpenAiSseDecoder::new());

    let items = reader.push("data: {\"a\":1}\ndata: {oops\ndata: {\"b\":2}\n");
    assert_eq!(items.len(), 2);
    assert_eq!(items[0].as_ref().unwrap(), &json("{\"a\":1}"));
    assert!(matches!(items[1], Err(ClientError::Json(_))));
    assert!(reader.push("data: {\"c\":3}\n").is_empty());
    assert_eq!(reader.finish().unwrap(), None);
}

#[test]
fn stream_reader_fails_on_an_unreadable_last_line() {
    let mut reader = StreamReader::new(JsonLinesDecoder::new());

    assert_eq!(events(reader.push("{\"a\":1}\n{oops")), vec![json("{\"a\":1}")]);
    assert!(matches!(reader.finish(), Err(ClientError::Json(_))));
}

/// A decoder of the caller's own: each non-blank line is an event, in upper
/// case, and a line that reads `boom` cannot be read.
struct ShoutingDecoder;

impl StreamDecoder for ShoutingDecoder {
    type Event = String;

    fn decode_line(&mut self, line: &str) -> Result<Option<String>> {
        let line = line.trim();
        if line == "boom" {
            return Err(ClientError::InvalidConfig("unreadable line".to_string()));
        }
        Ok(if line.is_empty() { None } else { Some(line.to_uppercase()) })
    }
}

#[test]
fn stream_reader_runs_a_decoder_of_the_callers_own() {
    let mut reader = StreamReader::new(ShoutingDecoder);

    let items = reader.push("one\n\ntwo\nboom\nthree\n");
    assert_eq!(items.len(), 3);
    assert_eq!(items[0].as_deref().unwrap(), "ONE");
    assert_eq!(items[1].as_deref().unwrap(), "TWO");
    assert!(matches!(items[2], Err(ClientError::InvalidConfig(_))));
    assert!(reader.push("four\n").is_empty());
}

#[test]
fn cutting_a_stream_elsewhere_gives_the_same_events() {
    let body = "data: {\"a\":1}\n\ndata: {\"b\":2}\ndata: [DONE]\ndata: {\"c\":3}\nDONE";
    let whole = {
        let mut reader = StreamReader::new(LenientSseDecoder::new());
        let mut out = events(reader.push(body));
        out.extend(reader.finish().unwrap());
        out
    };
    for cut in 0..=body.len() {
        if !body.is_char_boundary(cut) {
            continue;
        }
        let mut reader = StreamReader::new(LenientSseDecoder::new());
        let mut out = events(reader.push(&body[..cut]));
        out.extend(events(reader.push(&body[cut..])));
        out.extend(reader.finish().unwrap());
        assert_eq!(out, whole, "cut at {cut}");
    }
    assert_eq!(whole, vec![json("{\"a\":1}"), json("{\"b\":2}")]);
}
