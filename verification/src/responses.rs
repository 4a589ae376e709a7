//! The Responses API: the request, its builder and the response.

use vstd::prelude::*;

use crate::chat::{opt_tools, push_tool, Tool};
use crate::client::ApiClient;
use crate::error::{ClientError, Result};
use crate::config::opt_str;
use crate::json::{
    json_array, json_elements, json_get, json_map_entries, json_map_insert, json_map_new, json_member,
    json_text_member, text_member,
};
use crate::text::{is_blank, is_blank_str, opt_view, str_eq};

verus! {

/// One part of a multimodal input message: a text, or an image given by URL
/// (or a `data:` URL) with an optional level of detail.
#[derive(Debug, Clone, PartialEq, Eq)]
pub enum ResponseContentPart {
    InputText { text: String },
    InputImage { image_url: String, detail: Option<String> },
}

impl ResponseContentPart {
    /// A text part.
    pub fn text(text: &str) -> (r: ResponseContentPart)
        ensures
            r matches ResponseContentPart::InputText { text: t } && t@ == text@,
    {
        ResponseContentPart::InputText { text: text.to_owned() }
    }

    /// An image part.
    pub fn image_url(url: &str) -> (r: ResponseContentPart)
        ensures
            r matches ResponseContentPart::InputImage { image_url: u, detail: None } && u@ == url@,
    {
        ResponseContentPart::InputImage { image_url: url.to_owned(), detail: None }
    }

    /// An image part with a level of detail (`low`, `high` or `auto`).
    pub fn image_url_detail(url: &str, detail: &str) -> (r: ResponseContentPart)
        ensures
            r matches ResponseContentPart::InputImage { image_url: u, detail: Some(d) } && u@
                == url@ && d@ == detail@,
    {
        ResponseContentPart::InputImage { image_url: url.to_owned(), detail: Some(detail.to_owned()) }
    }
}

/// An input message of a response request: who wrote it, and its parts.
#[derive(Debug, Clone, PartialEq, Eq)]
pub struct ResponseInputMessage {
    pub role: String,
    pub content: Vec<ResponseContentPart>,
}

/// The input of a response request: a text, input messages made of parts,
/// or a list of raw input items.
#[derive(Debug, Clone, PartialEq)]
pub enum ResponseInput {
    Text(String),
    Messages(Vec<ResponseInputMessage>),
    Items(Vec<serde_json::Value>),
}

/// The structured-output format of a response: JSON that follows `schema`,
/// named `name`.
#[derive(Debug, Clone, PartialEq)]
pub struct ResponseTextFormat {
    pub name: String,
    pub schema: serde_json::Value,
}

/// A response request, ready to send.
#[derive(Debug, Clone, PartialEq)]
pub struct ResponsesRequest {
    pub model: String,
    pub input: ResponseInput,
    pub instructions: Option<String>,
    /// The sampling temperature, as the bits of an `f32` (`f32::to_bits`).
    pub temperature: Option<u32>,
    pub max_output_tokens: Option<u32>,
    pub tools: Option<Vec<Tool>>,
    pub text: Option<ResponseTextFormat>,
    pub extra: serde_json::Map<String, serde_json::Value>,
}

/// A response.
#[derive(Debug, Clone, PartialEq)]
pub struct ResponsesResponse {
    pub id: Option<String>,
    pub object: Option<String>,
    pub status: Option<String>,
    pub model: Option<String>,
    pub output: Option<Vec<serde_json::Value>>,
    pub output_text: Option<String>,
    pub extra: serde_json::Map<String, serde_json::Value>,
}

/// One part of the content of an output message: its type and its text.
#[derive(Debug, Clone, PartialEq, Eq)]
pub struct ResponseOutputContent {
    pub kind: Option<String>,
    pub text: Option<String>,
}

/// One item of the output of a response: a message with its content parts,
/// or a function call with its name, arguments and call id.
#[derive(Debug, Clone, PartialEq, Eq)]
pub struct ResponseOutputItem {
    pub kind: Option<String>,
    pub id: Option<String>,
    pub status: Option<String>,
    pub role: Option<String>,
    pub content: Option<Vec<ResponseOutputContent>>,
    pub name: Option<String>,
    pub arguments: Option<String>,
    pub call_id: Option<String>,
}

/// A content part as plain values: its type and its text.
pub type ContentModel = (Option<Seq<char>>, Option<Seq<char>>);

/// An output item as plain values.
pub struct OutputItemModel {
    pub kind: Option<Seq<char>>,
    pub id: Option<Seq<char>>,
    pub status: Option<Seq<char>>,
    pub role: Option<Seq<char>>,
    pub content: Option<Seq<ContentModel>>,
    pub name: Option<Seq<char>>,
    pub arguments: Option<Seq<char>>,
    pub call_id: Option<Seq<char>>,
}

/// The plain values of a content part.
pub open spec fn content_view(c: ResponseOutputContent) -> ContentModel {
    (opt_view(c.kind), opt_view(c.text))
}

/// The content part that the JSON value `v` describes: the texts of its
/// `type` and `text` members, where they are strings.
pub open spec fn content_of_json(v: serde_json::Value) -> ContentModel {
    (json_text_member(v, "type"@), json_text_member(v, "text"@))
}

/// The plain values of an output item.
pub open spec fn item_view(i: ResponseOutputItem) -> OutputItemModel {
    OutputItemModel {
        kind: opt_view(i.kind),
        id: opt_view(i.id),
        status: opt_view(i.status),
        role: opt_view(i.role),
        content: match i.content {
            Some(c) => Some(c@.map_values(|p: ResponseOutputContent| content_view(p))),
            None => None,
        },
        name: opt_view(i.name),
        arguments: opt_view(i.arguments),
        call_id: opt_view(i.call_id),
    }
}

/// The output item that the JSON value `v` describes: each text member that
/// is a string, and the content parts when `content` is an array.
pub open spec fn item_of_json(v: serde_json::Value) -> OutputItemModel {
    OutputItemModel {
        kind: json_text_member(v, "type"@),
        id: json_text_member(v, "id"@),
        status: json_text_member(v, "status"@),
        role: json_text_member(v, "role"@),
        content: match json_member(v, "content"@) {
            Some(c) => match json_elements(c) {
                Some(parts) => Some(parts.map_values(|p: serde_json::Value| content_of_json(p))),
                None => None,
            },
            None => None,
        },
        name: json_text_member(v, "name"@),
        arguments: json_text_member(v, "arguments"@),
        call_id: json_text_member(v, "call_id"@),
    }
}

/// The items among `items` that are function calls, in order.
pub open spec fn function_call_models(items: Seq<OutputItemModel>) -> Seq<OutputItemModel>
    decreases items.len(),
{
    if items.len() == 0 {
        seq![]
    } else {
        let rest = function_call_models(items.drop_last());
        if items.last().kind == Some("function_call"@) {
            rest.push(items.last())
        } else {
            rest
        }
    }
}

/// The text of the first `output_text` part among `parts`.
pub open spec fn first_part_text(parts: Seq<serde_json::Value>) -> Option<Seq<char>>
    decreases parts.len(),
{
    if parts.len() == 0 {
        None
    } else if json_text_member(parts[0], "type"@) == Some("output_text"@) && json_text_member(
        parts[0],
        "text"@,
    ) is Some {
        json_text_member(parts[0], "text"@)
    } else {
        first_part_text(parts.drop_first())
    }
}

/// The text of an output item: that of its first `output_text` part, when
/// it is a message.
pub open spec fn item_text(v: serde_json::Value) -> Option<Seq<char>> {
    if json_text_member(v, "type"@) == Some("message"@) {
        match json_member(v, "content"@) {
            Some(c) => match json_elements(c) {
                Some(parts) => first_part_text(parts),
                None => None,
            },
            None => None,
        }
    } else {
        None
    }
}

/// The text of the first output item that has one.
pub open spec fn first_output_text(items: Seq<serde_json::Value>) -> Option<Seq<char>>
    decreases items.len(),
{
    if items.len() == 0 {
        None
    } else {
        match item_text(items[0]) {
            Some(t) => Some(t),
            None => first_output_text(items.drop_first()),
        }
    }
}

/// The text of a response: its `output_text`, else the text of its first
/// output message.
pub open spec fn response_text(r: ResponsesResponse) -> Option<Seq<char>> {
    match r.output_text {
        Some(t) => Some(t@),
        None => match r.output {
            Some(o) => first_output_text(o@),
            None => None,
        },
    }
}

/// The text of a response is its `output_text` whenever it has one; only
/// without it does the first output message give the text, and without
/// either there is none.
pub proof fn lemma_response_text_prefers_output_text(r: ResponsesResponse)
    ensures
        r.output_text matches Some(t) ==> response_text(r) == Some(t@),
        r.output_text is None && r.output is None ==> response_text(r) is None,
        r.output_text is None ==> (r.output matches Some(o) ==> response_text(r) == first_output_text(
            o@,
        )),
{
}

/// The text of output items that come one after the other is the text of
/// the first run when it has one, else that of the second: the first item
/// with text wins, and items without text are passed over.
pub proof fn lemma_first_output_text_append(a: Seq<serde_json::Value>, b: Seq<serde_json::Value>)
    ensures
        first_output_text(a + b) == match first_output_text(a) {
            Some(t) => Some(t),
            None => first_output_text(b),
        },
    decreases a.len(),
{
    if a.len() == 0 {
        assert(a + b =~= b);
    } else {
        lemma_first_output_text_append(a.drop_first(), b);
        assert((a + b).drop_first() =~= a.drop_first() + b);
        assert((a + b)[0] == a[0]);
    }
}

/// A copy of an optional text.
fn owned(t: Option<&str>) -> (r: Option<String>)
    ensures
        opt_view(r) == opt_str(t),
{
    match t {
        Some(s) => Some(s.to_owned()),
        None => None,
    }
}

/// The content part that `v` describes.
fn content_from_json(v: &serde_json::Value) -> (r: ResponseOutputContent)
    ensures
        content_view(r) == content_of_json(*v),
{
    ResponseOutputContent { kind: owned(text_member(v, "type")), text: owned(text_member(v, "text")) }
}

/// The output item that `v` describes.
fn item_from_json(v: &serde_json::Value) -> (r: ResponseOutputItem)
    ensures
        item_view(r) == item_of_json(*v),
{
    let content = match json_get(v, "content") {
        Some(c) => match json_array(c) {
            Some(parts) => {
                let mut out: Vec<ResponseOutputContent> = Vec::new();
                let mut i: usize = 0;
                while i < parts.len()
                    invariant
                        i <= parts@.len(),
                        out@.map_values(|p: ResponseOutputContent| content_view(p)) == parts@.take(
                            i as int,
                        ).map_values(|p: serde_json::Value| content_of_json(p)),
                    decreases parts@.len() - i,
                {
                    let part = content_from_json(&parts[i]);
                    let ghost prev = out@;
                    out.push(part);
                    assert(out@.map_values(|p: ResponseOutputContent| content_view(p)) =~= prev.map_values(
                        |p: ResponseOutputContent| content_view(p),
                    ).push(content_view(part)));
                    assert(parts@.take(i + 1).map_values(|p: serde_json::Value| content_of_json(p))
                        =~= parts@.take(i as int).map_values(|p: serde_json::Value| content_of_json(p)).push(
                        content_of_json(parts@[i as int]),
                    ));
                    i = i + 1;
                }
                assert(parts@.take(parts@.len() as int) =~= parts@);
                Some(out)
            },
            None => None,
        },
        None => None,
    };
    ResponseOutputItem {
        kind: owned(text_member(v, "type")),
        id: owned(text_member(v, "id")),
        status: owned(text_member(v, "status")),
        role: owned(text_member(v, "role")),
        content,
        name: owned(text_member(v, "name")),
        arguments: owned(text_member(v, "arguments")),
        call_id: owned(text_member(v, "call_id")),
    }
}

/// The text of the first `output_text` part among `parts`.
fn first_part_text_of<'a>(parts: &'a Vec<serde_json::Value>) -> (r: Option<&'a str>)
    ensures
        opt_str(r) == first_part_text(parts@),
{
    let mut i: usize = 0;
    assert(parts@.skip(0) =~= parts@);
    while i < parts.len()
        invariant
            i <= parts@.len(),
            first_part_text(parts@) == first_part_text(parts@.skip(i as int)),
        decreases parts@.len() - i,
    {
        assert(parts@.skip(i as int)[0] == parts@[i as int]);
        assert(parts@.skip(i as int).drop_first() =~= parts@.skip(i + 1));
        let is_text = match text_member(&parts[i], "type") {
            Some(kind) => str_eq(kind, "output_text"),
            None => false,
        };
        if is_text {
            if let Some(text) = text_member(&parts[i], "text") {
                return Some(text);
            }
        }
        i = i + 1;
    }
    None
}

/// The text of an output item, when it is a message.
fn item_text_of(v: &serde_json::Value) -> (r: Option<&str>)
    ensures
        opt_str(r) == item_text(*v),
{
    let is_message = match text_member(v, "type") {
        Some(kind) => str_eq(kind, "message"),
        None => false,
    };
    if !is_message {
        return None;
    }
    match json_get(v, "content") {
        Some(c) => match json_array(c) {
            Some(parts) => first_part_text_of(parts),
            None => None,
        },
        None => None,
    }
}

impl ResponsesResponse {
    /// The output items, read from the JSON output; none when the response
    /// has no output.
    pub fn output_items(&self) -> (r: Option<Vec<ResponseOutputItem>>)
        ensures
            match self.output {
                Some(o) => r matches Some(items) && items@.map_values(|i: ResponseOutputItem| item_view(i))
                    == o@.map_values(|v: serde_json::Value| item_of_json(v)),
                None => r is None,
            },
    {
        match &self.output {
            Some(output) => {
                let mut items: Vec<ResponseOutputItem> = Vec::new();
                let mut i: usize = 0;
                while i < output.len()
                    invariant
                        i <= output@.len(),
                        items@.map_values(|i: ResponseOutputItem| item_view(i)) == output@.take(
                            i as int,
                        ).map_values(|v: serde_json::Value| item_of_json(v)),
                    decreases output@.len() - i,
                {
                    let item = item_from_json(&output[i]);
                    let ghost prev = items@;
                    items.push(item);
                    assert(items@.map_values(|i: ResponseOutputItem| item_view(i)) =~= prev.map_values(
                        |i: ResponseOutputItem| item_view(i),
                    ).push(item_view(item)));
                    assert(output@.take(i + 1).map_values(|v: serde_json::Value| item_of_json(v))
                        =~= output@.take(i as int).map_values(|v: serde_json::Value| item_of_json(v)).push(
                        item_of_json(output@[i as int]),
                    ));
                    i = i + 1;
                }
                assert(output@.take(output@.len() as int) =~= output@);
                Some(items)
            },
            None => None,
        }
    }

    /// The output items that are function calls, in order; none when the
    /// response has no output.
    pub fn function_calls(&self) -> (r: Option<Vec<ResponseOutputItem>>)
        ensures
            match self.output {
                Some(o) => r matches Some(calls) && calls@.map_values(|i: ResponseOutputItem| item_view(i))
                    == function_call_models(o@.map_values(|v: serde_json::Value| item_of_json(v))),
                None => r is None,
            },
    {
        match self.output_items() {
            Some(items) => {
                let ghost all = items@.map_values(|i: ResponseOutputItem| item_view(i));
                let mut calls: Vec<ResponseOutputItem> = Vec::new();
                let mut rest = items;
                let mut taken: usize = 0;
                let total = rest.len();
                assert(all.take(0) =~= Seq::<OutputItemModel>::empty());
                assert(calls@.map_values(|i: ResponseOutputItem| item_view(i)) =~= Seq::<OutputItemModel>::empty());
                while rest.len() > 0
                    invariant
                        taken + rest@.len() == total,
                        total == all.len(),
                        rest@.map_values(|i: ResponseOutputItem| item_view(i)) == all.skip(taken as int),
                        calls@.map_values(|i: ResponseOutputItem| item_view(i)) == function_call_models(
                            all.take(taken as int),
                        ),
                    decreases rest@.len(),
                {
                    let ghost before_rest = rest@;
                    let item = rest.remove(0);
                    assert(item_view(item) == all[taken as int]) by {
                        assert(before_rest.map_values(|i: ResponseOutputItem| item_view(i))[0] == all.skip(
                            taken as int,
                        )[0]);
                    }
                    assert forall|j: int| 0 <= j < rest@.len() implies item_view(#[trigger] rest@[j]) == all[taken
                        + 1 + j] by {
                        assert(rest@[j] == before_rest[j + 1]);
                        assert(before_rest.map_values(|i: ResponseOutputItem| item_view(i))[j + 1] == all.skip(
                            taken as int,
                        )[j + 1]);
                    }
                    assert(rest@.map_values(|i: ResponseOutputItem| item_view(i)) =~= all.skip(taken + 1));
                    assert(all.take(taken + 1).drop_last() =~= all.take(taken as int));
                    assert(all.take(taken + 1).last() == all[taken as int]);
                    let is_call = match &item.kind {
                        Some(kind) => str_eq(kind.as_str(), "function_call"),
                        None => false,
                    };
                    if is_call {
                        let ghost prev = calls@;
                        calls.push(item);
                        assert(calls@.map_values(|i: ResponseOutputItem| item_view(i)) =~= prev.map_values(
                            |i: ResponseOutputItem| item_view(i),
                        ).push(all[taken as int]));
                    }
                    taken = taken + 1;
                }
                assert(all.take(total as int) =~= all);
                Some(calls)
            },
            None => None,
        }
    }

    /// The text of the response: its `output_text`, else the text of its
    /// first output message.
    pub fn first_text(&self) -> (r: Option<&str>)
        ensures
            opt_str(r) == response_text(*self),
    {
        match &self.output_text {
            Some(t) => Some(t.as_str()),
            None => match &self.output {
                Some(output) => {
                    let mut i: usize = 0;
                    assert(output@.skip(0) =~= output@);
                    while i < output.len()
                        invariant
                            i <= output@.len(),
                            response_text(*self) == first_output_text(output@),
                            first_output_text(output@) == first_output_text(output@.skip(i as int)),
                        decreases output@.len() - i,
                    {
                        assert(output@.skip(i as int)[0] == output@[i as int]);
                        assert(output@.skip(i as int).drop_first() =~= output@.skip(i + 1));
                        let found = item_text_of(&output[i]);
                        if found.is_some() {
                            assert(first_output_text(output@.skip(i as int)) == item_text(output@[i as int]));
                            return found;
                        }
                        i = i + 1;
                    }
                    None
                },
                None => None,
            },
        }
    }

    /// The text of the response, as `first_text` finds it; `MissingText`
    /// when there is none.
    pub fn text(self) -> (r: Result<String>)
        ensures
            match response_text(self) {
                Some(t) => r matches Ok(s) && s@ == t,
                None => r matches Err(ClientError::MissingText),
            },
    {
        match self.first_text() {
            Some(t) => Ok(t.to_owned()),
            None => Err(ClientError::MissingText),
        }
    }

    /// The output text, to be read as JSON; `MissingText` when there is none.
    pub fn json_text(&self) -> (r: Result<&str>)
        ensures
            match self.output_text {
                Some(t) => r matches Ok(s) && s@ == t@,
                None => r matches Err(ClientError::MissingText),
            },
    {
        match &self.output_text {
            Some(t) => Ok(t.as_str()),
            None => Err(ClientError::MissingText),
        }
    }
}

/// What a response request builder holds, as plain values.
pub struct ResponsesModel {
    pub client: ApiClient,
    pub model: Option<Seq<char>>,
    pub input: Option<ResponseInput>,
    pub instructions: Option<Seq<char>>,
    pub temperature: Option<u32>,
    pub max_output_tokens: Option<u32>,
    pub tools: Option<Seq<Tool>>,
    pub text: Option<ResponseTextFormat>,
    pub extra: Map<Seq<char>, serde_json::Value>,
}

/// Builds a response request step by step.
pub struct ResponseRequestBuilder<'a> {
    client: &'a ApiClient,
    model: Option<String>,
    input: Option<ResponseInput>,
    instructions: Option<String>,
    temperature: Option<u32>,
    max_output_tokens: Option<u32>,
    tools: Option<Vec<Tool>>,
    text: Option<ResponseTextFormat>,
    extra: serde_json::Map<String, serde_json::Value>,
}

impl<'a> View for ResponseRequestBuilder<'a> {
    type V = ResponsesModel;

    closed spec fn view(&self) -> ResponsesModel {
        ResponsesModel {
            client: *self.client,
            model: opt_view(self.model),
            input: self.input,
            instructions: opt_view(self.instructions),
            temperature: self.temperature,
            max_output_tokens: self.max_output_tokens,
            tools: opt_tools(self.tools),
            text: self.text,
            extra: json_map_entries(self.extra),
        }
    }
}

impl<'a> ResponseRequestBuilder<'a> {
    /// An empty request for `client`.
    pub fn new(client: &'a ApiClient) -> (r: ResponseRequestBuilder<'a>)
        ensures
            r@ == (ResponsesModel {
                client: *client,
                model: None,
                input: None,
                instructions: None,
                temperature: None,
                max_output_tokens: None,
                tools: None,
                text: None,
                extra: Map::empty(),
            }),
    {
        ResponseRequestBuilder {
            client,
            model: None,
            input: None,
            instructions: None,
            temperature: None,
            max_output_tokens: None,
            tools: None,
            text: None,
            extra: json_map_new(),
        }
    }

    /// The client that sends the request.
    pub fn client(&self) -> (r: &'a ApiClient)
        ensures
            *r == self@.client,
    {
        self.client
    }

    /// Sets the model.
    pub fn model(self, model: &str) -> (r: ResponseRequestBuilder<'a>)
        ensures
            r@ == (ResponsesModel { model: Some(model@), ..self@ }),
    {
        ResponseRequestBuilder { model: Some(model.to_owned()), ..self }
    }

    /// Sets a text input.
    pub fn input(self, input: &str) -> (r: ResponseRequestBuilder<'a>)
        ensures
            r@.input matches Some(ResponseInput::Text(t)) && t@ == input@,
            r@ == (ResponsesModel { input: r@.input, ..self@ }),
    {
        ResponseRequestBuilder { input: Some(ResponseInput::Text(input.to_owned())), ..self }
    }

    /// Sets a list of input items.
    pub fn input_items(self, items: Vec<serde_json::Value>) -> (r: ResponseRequestBuilder<'a>)
        ensures
            r@ == (ResponsesModel { input: Some(ResponseInput::Items(items)), ..self@ }),
    {
        ResponseRequestBuilder { input: Some(ResponseInput::Items(items)), ..self }
    }

    /// Sets the input to one user message made of `parts`.
    pub fn user_parts(self, parts: Vec<ResponseContentPart>) -> (r: ResponseRequestBuilder<'a>)
        ensures
            r@.input matches Some(ResponseInput::Messages(ms)) && ms@.len() == 1 && ms@[0].role@
                == "user"@ && ms@[0].content == parts,
            r@ == (ResponsesModel { input: r@.input, ..self@ }),
    {
        let message = ResponseInputMessage { role: "user".to_owned(), content: parts };
        let mut messages: Vec<ResponseInputMessage> = Vec::new();
        messages.push(message);
        ResponseRequestBuilder { input: Some(ResponseInput::Messages(messages)), ..self }
    }

    /// Sets the instructions.
    pub fn instructions(self, instructions: &str) -> (r: ResponseRequestBuilder<'a>)
        ensures
            r@ == (ResponsesModel { instructions: Some(instructions@), ..self@ }),
    {
        ResponseRequestBuilder { instructions: Some(instructions.to_owned()), ..self }
    }

    /// Sets the sampling temperature, given as the bits of an `f32`.
    pub fn temperature(self, temperature: u32) -> (r: ResponseRequestBuilder<'a>)
        ensures
            r@ == (ResponsesModel { temperature: Some(temperature), ..self@ }),
    {
        ResponseRequestBuilder { temperature: Some(temperature), ..self }
    }

    /// Sets the largest number of output tokens.
    pub fn max_output_tokens(self, max_output_tokens: u32) -> (r: ResponseRequestBuilder<'a>)
        ensures
            r@ == (ResponsesModel { max_output_tokens: Some(max_output_tokens), ..self@ }),
    {
        ResponseRequestBuilder { max_output_tokens: Some(max_output_tokens), ..self }
    }

    /// Adds a tool that the model may use.
    pub fn tool(self, tool: Tool) -> (r: ResponseRequestBuilder<'a>)
        ensures
            r@ == (ResponsesModel { tools: push_tool(self@.tools, tool), ..self@ }),
    {
        let tools = match self.tools {
            Some(ts) => {
                let mut ts = ts;
                ts.push(tool);
                ts
            },
            None => {
                let mut ts: Vec<Tool> = Vec::new();
                ts.push(tool);
                assert(ts@ =~= seq![tool]);
                ts
            },
        };
        ResponseRequestBuilder { tools: Some(tools), ..self }
    }

    /// Asks for output in JSON that follows `schema`, named `name`.
    pub fn json_schema(self, name: &str, schema: serde_json::Value) -> (r: ResponseRequestBuilder<'a>)
        ensures
            r@.text matches Some(f) && f.name@ == name@ && f.schema == schema,
            r@ == (ResponsesModel { text: r@.text, ..self@ }),
    {
        let format = ResponseTextFormat { name: name.to_owned(), schema };
        ResponseRequestBuilder { text: Some(format), ..self }
    }

    /// Sets a provider-specific field of the request.
    pub fn extra(self, key: &str, value: serde_json::Value) -> (r: ResponseRequestBuilder<'a>)
        ensures
            r@ == (ResponsesModel { extra: self@.extra.insert(key@, value), ..self@ }),
    {
        let mut extra = self.extra;
        json_map_insert(&mut extra, key.to_owned(), value);
        ResponseRequestBuilder { extra, ..self }
    }

    /// The request; refused when the model is missing or blank, or when
    /// there is no input.
    pub fn build(self) -> (r: Result<ResponsesRequest>)
        ensures
            (self@.model matches Some(m) && !is_blank(m) && self@.input is Some) <==> r is Ok,
            r is Err ==> r matches Err(ClientError::InvalidConfig(_)),
            r matches Ok(req) ==> {
                &&& Some(req.model@) == self@.model
                &&& Some(req.input) == self@.input
                &&& opt_view(req.instructions) == self@.instructions
                &&& req.temperature == self@.temperature
                &&& req.max_output_tokens == self@.max_output_tokens
                &&& opt_tools(req.tools) == self@.tools
                &&& req.text == self@.text
                &&& json_map_entries(req.extra) == self@.extra
            },
    {
        let model = match self.model {
            Some(m) => {
                if is_blank_str(m.as_str()) {
                    return Err(ClientError::InvalidConfig("response model is required".to_owned()));
                }
                m
            },
            None => {
                return Err(ClientError::InvalidConfig("response model is required".to_owned()));
            },
        };
        let input = match self.input {
            Some(i) => i,
            None => {
                return Err(ClientError::InvalidConfig("response input is required".to_owned()));
            },
        };
        Ok(ResponsesRequest {
            model,
            input,
            instructions: self.instructions,
            temperature: self.temperature,
            max_output_tokens: self.max_output_tokens,
            tools: self.tools,
            text: self.text,
            extra: self.extra,
        })
    }
}

} // verus!
