//! Chat completions: messages, tools, the request and its builder, the
//! response and the events of a streamed response.

use vstd::prelude::*;

use crate::client::ApiClient;
use crate::error::{ClientError, Result};
use crate::json::{json_map_entries, json_map_insert, json_map_new};
use crate::text::{is_blank, is_blank_str, opt_view};

verus! {

/// Who wrote a chat message.
#[derive(Debug, Clone, Copy, PartialEq, Eq, Structural)]
pub enum ChatRole {
    System,
    User,
    Assistant,
    Tool,
}

/// An image given by URL (or a `data:` URL), with an optional level of detail.
#[derive(Debug, Clone, PartialEq, Eq)]
pub struct ImageUrl {
    pub url: String,
    pub detail: Option<String>,
}

/// One part of a multimodal message.
#[derive(Debug, Clone, PartialEq, Eq)]
pub enum ChatContentPart {
    Text { text: String },
    ImageUrl { image_url: ImageUrl },
}

/// The content of a chat message: none, text, or several parts.
#[derive(Debug, Clone, PartialEq, Eq)]
pub enum ChatContent {
    Null,
    Text(String),
    Parts(Vec<ChatContentPart>),
}

/// The function that a tool call invokes, with its JSON arguments as text.
#[derive(Debug, Clone, PartialEq, Eq)]
pub struct ToolCallFunction {
    pub name: String,
    pub arguments: String,
}

/// A call of a tool that the model asks for.
#[derive(Debug, Clone, PartialEq, Eq)]
pub struct ToolCall {
    pub id: String,
    pub kind: String,
    pub function: ToolCallFunction,
}

/// One message of a chat.
#[derive(Debug, Clone, PartialEq)]
pub struct ChatMessage {
    pub role: ChatRole,
    pub content: ChatContent,
    pub tool_call_id: Option<String>,
    pub tool_calls: Option<Vec<ToolCall>>,
}

/// A function that the model may call: its name, what it does, and the JSON
/// schema of its parameters.
#[derive(Debug, PartialEq)]
pub struct FunctionTool {
    pub name: String,
    pub description: String,
    pub parameters: serde_json::Value,
}

/// A tool that the model may use.
#[derive(Debug, PartialEq)]
pub struct Tool {
    pub kind: String,
    pub function: FunctionTool,
}

impl Clone for FunctionTool {
    /// An equal copy.
    fn clone(&self) -> (r: FunctionTool)
        ensures
            r == *self,
    {
        FunctionTool {
            name: self.name.clone(),
            description: self.description.clone(),
            parameters: self.parameters.clone(),
        }
    }
}

impl Clone for Tool {
    /// An equal copy.
    fn clone(&self) -> (r: Tool)
        ensures
            r == *self,
    {
        Tool { kind: self.kind.clone(), function: self.function.clone() }
    }
}

/// The format that the model's answer must take.
#[derive(Debug, Clone, PartialEq)]
pub enum ResponseFormat {
    /// Any JSON object.
    JsonObject,
    /// JSON that follows `schema`, named `name`.
    JsonSchema { name: String, schema: serde_json::Value },
}

/// Whether `m` is a plain text message of `role` with text `text`.
pub open spec fn is_text_message(m: ChatMessage, role: ChatRole, text: Seq<char>) -> bool {
    &&& m.role == role
    &&& m.content matches ChatContent::Text(t) && t@ == text
    &&& m.tool_call_id.is_none()
    &&& m.tool_calls.is_none()
}

impl ChatMessage {
    /// A system message.
    pub fn system(content: &str) -> (r: ChatMessage)
        ensures
            is_text_message(r, ChatRole::System, content@),
    {
        ChatMessage {
            role: ChatRole::System,
            content: ChatContent::text(content),
            tool_call_id: None,
            tool_calls: None,
        }
    }

    /// A user message.
    pub fn user(content: &str) -> (r: ChatMessage)
        ensures
            is_text_message(r, ChatRole::User, content@),
    {
        ChatMessage {
            role: ChatRole::User,
            content: ChatContent::text(content),
            tool_call_id: None,
            tool_calls: None,
        }
    }

    /// An assistant message.
    pub fn assistant(content: &str) -> (r: ChatMessage)
        ensures
            is_text_message(r, ChatRole::Assistant, content@),
    {
        ChatMessage {
            role: ChatRole::Assistant,
            content: ChatContent::text(content),
            tool_call_id: None,
            tool_calls: None,
        }
    }

    /// The answer to the tool call `tool_call_id`.
    pub fn tool(tool_call_id: &str, content: &str) -> (r: ChatMessage)
        ensures
            r.role == ChatRole::Tool,
            r.content matches ChatContent::Text(t) && t@ == content@,
            r.tool_call_id matches Some(id) && id@ == tool_call_id@,
            r.tool_calls.is_none(),
    {
        ChatMessage {
            role: ChatRole::Tool,
            content: ChatContent::text(content),
            tool_call_id: Some(tool_call_id.to_owned()),
            tool_calls: None,
        }
    }

    /// A user message made of several parts.
    pub fn user_parts(parts: Vec<ChatContentPart>) -> (r: ChatMessage)
        ensures
            r.role == ChatRole::User,
            r.content == ChatContent::Parts(parts),
            r.tool_call_id.is_none(),
            r.tool_calls.is_none(),
    {
        ChatMessage {
            role: ChatRole::User,
            content: ChatContent::Parts(parts),
            tool_call_id: None,
            tool_calls: None,
        }
    }
}

impl ChatContent {
    /// Text content.
    pub fn text(content: &str) -> (r: ChatContent)
        ensures
            r matches ChatContent::Text(t) && t@ == content@,
    {
        ChatContent::Text(content.to_owned())
    }

    /// The text of text content; none for no content or several parts.
    pub fn as_text(&self) -> (r: Option<&str>)
        ensures
            match *self {
                ChatContent::Text(t) => r matches Some(s) && s@ == t@,
                _ => r.is_none(),
            },
    {
        match self {
            ChatContent::Null => None,
            ChatContent::Text(text) => Some(text.as_str()),
            ChatContent::Parts(_) => None,
        }
    }
}

impl ChatContentPart {
    /// A text part.
    pub fn text(text: &str) -> (r: ChatContentPart)
        ensures
            r matches ChatContentPart::Text { text: t } && t@ == text@,
    {
        ChatContentPart::Text { text: text.to_owned() }
    }

    /// An image part, by URL, without a level of detail.
    pub fn image_url(url: &str) -> (r: ChatContentPart)
        ensures
            r matches ChatContentPart::ImageUrl { image_url } && image_url.url@ == url@
                && image_url.detail.is_none(),
    {
        ChatContentPart::ImageUrl { image_url: ImageUrl { url: url.to_owned(), detail: None } }
    }

    /// An image part, by URL, with a level of detail (`low`, `high`, `auto`).
    pub fn image_url_detail(url: &str, detail: &str) -> (r: ChatContentPart)
        ensures
            r matches ChatContentPart::ImageUrl { image_url } && image_url.url@ == url@
                && (image_url.detail matches Some(d) && d@ == detail@),
    {
        ChatContentPart::ImageUrl {
            image_url: ImageUrl { url: url.to_owned(), detail: Some(detail.to_owned()) },
        }
    }
}

impl Tool {
    /// A function tool.
    pub fn function(name: &str, description: &str, parameters: serde_json::Value) -> (r: Tool)
        ensures
            r.kind@ == "function"@,
            r.function.name@ == name@,
            r.function.description@ == description@,
            r.function.parameters == parameters,
    {
        Tool {
            kind: "function".to_owned(),
            function: FunctionTool {
                name: name.to_owned(),
                description: description.to_owned(),
                parameters,
            },
        }
    }
}

/// A chat completion request, ready to send.
#[derive(Debug, Clone, PartialEq)]
pub struct ChatCompletionRequest {
    pub model: String,
    pub messages: Vec<ChatMessage>,
    /// The sampling temperature, as the bits of an `f32` (`f32::to_bits`).
    pub temperature: Option<u32>,
    pub max_tokens: Option<u32>,
    pub stream: Option<bool>,
    pub tools: Option<Vec<Tool>>,
    pub tool_choice: Option<serde_json::Value>,
    pub response_format: Option<ResponseFormat>,
    pub extra: serde_json::Map<String, serde_json::Value>,
}

/// Token counts of a response.
#[derive(Debug, Clone, PartialEq, Eq)]
pub struct Usage {
    pub prompt_tokens: Option<u32>,
    pub completion_tokens: Option<u32>,
    pub total_tokens: Option<u32>,
}

/// One choice of a chat completion.
#[derive(Debug, Clone, PartialEq)]
pub struct ChatChoice {
    pub index: Option<u32>,
    pub message: ChatMessage,
    pub finish_reason: Option<String>,
    pub extra: serde_json::Map<String, serde_json::Value>,
}

/// A chat completion.
#[derive(Debug, Clone, PartialEq)]
pub struct ChatCompletionResponse {
    pub id: Option<String>,
    pub object: Option<String>,
    pub created: Option<u64>,
    pub model: Option<String>,
    pub choices: Vec<ChatChoice>,
    pub usage: Option<Usage>,
    pub extra: serde_json::Map<String, serde_json::Value>,
}

/// The text of the first choice of a chat completion, when it is text.
pub open spec fn first_text_spec(choices: Seq<ChatChoice>) -> Option<Seq<char>> {
    if choices.len() > 0 {
        match choices[0].message.content {
            ChatContent::Text(t) => Some(t@),
            _ => None,
        }
    } else {
        None
    }
}

/// The text of a completion is the text of its first choice's message,
/// whatever that choice's finish reason and whatever the other choices:
/// there is text exactly when there is a first choice whose message is text.
pub proof fn lemma_first_text_is_first_message(choices: Seq<ChatChoice>, others: Seq<ChatChoice>)
    ensures
        choices.len() == 0 ==> first_text_spec(choices) is None,
        choices.len() > 0 ==> (first_text_spec(choices) is Some <==> choices[0].message.content is Text),
        choices.len() > 0 ==> (choices[0].message.content matches ChatContent::Text(t)
            ==> first_text_spec(choices) == Some(t@)),
        choices.len() > 0 && others.len() > 0 && others[0].message.content
            == choices[0].message.content ==> first_text_spec(others) == first_text_spec(choices),
{
}

impl ChatCompletionResponse {
    /// The text of the first choice, when it is text.
    pub fn first_text(&self) -> (r: Option<&str>)
        ensures
            match r {
                Some(s) => first_text_spec(self.choices@) == Some(s@),
                None => first_text_spec(self.choices@).is_none(),
            },
    {
        if self.choices.len() > 0 {
            self.choices[0].message.content.as_text()
        } else {
            None
        }
    }

    /// The text of the first choice; `MissingText` when there is none.
    pub fn text(self) -> (r: Result<String>)
        ensures
            match first_text_spec(self.choices@) {
                Some(t) => r matches Ok(s) && s@ == t,
                None => r matches Err(ClientError::MissingText),
            },
    {
        let mut choices = self.choices;
        if choices.len() == 0 {
            return Err(ClientError::MissingText);
        }
        let first = choices.remove(0);
        match first.message.content {
            ChatContent::Text(text) => Ok(text),
            _ => Err(ClientError::MissingText),
        }
    }

    /// The text of the first choice, to be read as JSON; `MissingText` when
    /// there is none.
    pub fn json_text(&self) -> (r: Result<&str>)
        ensures
            match first_text_spec(self.choices@) {
                Some(t) => r matches Ok(s) && s@ == t,
                None => r matches Err(ClientError::MissingText),
            },
    {
        match self.first_text() {
            Some(t) => Ok(t),
            None => Err(ClientError::MissingText),
        }
    }
}

/// The function part of a streamed tool call.
#[derive(Debug, Clone, PartialEq, Eq)]
pub struct ChatStreamToolCallFunction {
    pub name: Option<String>,
    pub arguments: Option<String>,
}

/// A piece of a tool call in a streamed response.
#[derive(Debug, Clone, PartialEq)]
pub struct ChatStreamToolCall {
    pub index: Option<u32>,
    pub id: Option<String>,
    pub kind: Option<String>,
    pub function: Option<ChatStreamToolCallFunction>,
    pub extra: serde_json::Map<String, serde_json::Value>,
}

/// What one event of a streamed response adds to a choice.
#[derive(Debug, Clone, PartialEq)]
pub struct ChatStreamDelta {
    pub role: Option<ChatRole>,
    pub content: Option<String>,
    pub tool_calls: Option<Vec<ChatStreamToolCall>>,
    pub extra: serde_json::Map<String, serde_json::Value>,
}

/// One choice of a streamed event.
#[derive(Debug, Clone, PartialEq)]
pub struct ChatStreamChoice {
    pub index: Option<u32>,
    pub delta: ChatStreamDelta,
    pub finish_reason: Option<String>,
    pub extra: serde_json::Map<String, serde_json::Value>,
}

/// One event of a streamed chat completion.
#[derive(Debug, Clone, PartialEq)]
pub struct ChatStreamEvent {
    pub id: Option<String>,
    pub object: Option<String>,
    pub created: Option<u64>,
    pub model: Option<String>,
    pub choices: Vec<ChatStreamChoice>,
    pub extra: serde_json::Map<String, serde_json::Value>,
}

/// The text pieces of the choices of an event, in order, skipping the
/// choices that carry no text.
pub open spec fn delta_texts(choices: Seq<ChatStreamChoice>) -> Seq<Seq<char>>
    decreases choices.len(),
{
    if choices.len() == 0 {
        seq![]
    } else {
        let rest = delta_texts(choices.drop_last());
        match choices.last().delta.content {
            Some(t) => rest.push(t@),
            None => rest,
        }
    }
}

/// The text pieces of choices that come one after the other are those of
/// the first, then those of the second: each choice gives its delta text, if
/// any, in its place, and nothing else.
pub proof fn lemma_delta_texts_append(a: Seq<ChatStreamChoice>, b: Seq<ChatStreamChoice>)
    ensures
        delta_texts(a + b) == delta_texts(a) + delta_texts(b),
    decreases b.len(),
{
    if b.len() == 0 {
        assert(a + b =~= a);
        assert(delta_texts(a) + Seq::<Seq<char>>::empty() =~= delta_texts(a));
    } else {
        lemma_delta_texts_append(a, b.drop_last());
        assert((a + b).drop_last() =~= a + b.drop_last());
        assert((a + b).last() == b.last());
        match b.last().delta.content {
            Some(t) => {
                assert(delta_texts(a) + delta_texts(b.drop_last()).push(t@) =~= (delta_texts(a)
                    + delta_texts(b.drop_last())).push(t@));
            },
            None => {},
        }
    }
}

/// One choice gives its delta text as the only piece, or no piece without
/// one.
pub proof fn lemma_delta_texts_single(c: ChatStreamChoice)
    ensures
        delta_texts(seq![c]) == match c.delta.content {
            Some(t) => seq![t@],
            None => Seq::<Seq<char>>::empty(),
        },
{
    assert(seq![c].drop_last() =~= Seq::<ChatStreamChoice>::empty());
    assert(delta_texts(Seq::<ChatStreamChoice>::empty()) == Seq::<Seq<char>>::empty());
    assert(seq![c].last() == c);
    match c.delta.content {
        Some(t) => {
            assert(Seq::<Seq<char>>::empty().push(t@) =~= seq![t@]);
        },
        None => {},
    }
}

impl ChatStreamEvent {
    /// The text pieces of the event's choices, in order.
    pub fn text_chunks(&self) -> (r: Vec<String>)
        ensures
            r@.map_values(|s: String| s@) == delta_texts(self.choices@),
    {
        let mut out: Vec<String> = Vec::new();
        let mut i: usize = 0;
        while i < self.choices.len()
            invariant
                i <= self.choices@.len(),
                out@.map_values(|s: String| s@) == delta_texts(self.choices@.take(i as int)),
            decreases self.choices@.len() - i,
        {
            assert(self.choices@.take(i + 1).drop_last() =~= self.choices@.take(i as int));
            match &self.choices[i].delta.content {
                Some(text) => {
                    out.push(text.clone());
                    assert(out@.map_values(|s: String| s@) =~= delta_texts(self.choices@.take(i as int)).push(text@));
                },
                None => {},
            }
            i = i + 1;
        }
        assert(self.choices@.take(self.choices@.len() as int) =~= self.choices@);
        out
    }
}

/// What a chat request builder holds, as plain values.
pub struct ChatRequestModel {
    pub client: ApiClient,
    pub model: Option<Seq<char>>,
    pub messages: Seq<ChatMessage>,
    pub temperature: Option<u32>,
    pub max_tokens: Option<u32>,
    pub stream: Option<bool>,
    pub tools: Option<Seq<Tool>>,
    pub tool_choice: Option<serde_json::Value>,
    pub response_format: Option<ResponseFormat>,
    pub extra: Map<Seq<char>, serde_json::Value>,
}

/// Builds a chat completion request step by step.
pub struct ChatRequestBuilder<'a> {
    client: &'a ApiClient,
    model: Option<String>,
    messages: Vec<ChatMessage>,
    temperature: Option<u32>,
    max_tokens: Option<u32>,
    stream: Option<bool>,
    tools: Option<Vec<Tool>>,
    tool_choice: Option<serde_json::Value>,
    response_format: Option<ResponseFormat>,
    extra: serde_json::Map<String, serde_json::Value>,
}

/// The tools of a request once `tool` is added.
pub open spec fn push_tool(tools: Option<Seq<Tool>>, tool: Tool) -> Option<Seq<Tool>> {
    match tools {
        Some(ts) => Some(ts.push(tool)),
        None => Some(seq![tool]),
    }
}

/// The view of an optional list of tools.
pub open spec fn opt_tools(tools: Option<Vec<Tool>>) -> Option<Seq<Tool>> {
    match tools {
        Some(ts) => Some(ts@),
        None => None,
    }
}

impl<'a> View for ChatRequestBuilder<'a> {
    type V = ChatRequestModel;

    closed spec fn view(&self) -> ChatRequestModel {
        ChatRequestModel {
            client: *self.client,
            model: opt_view(self.model),
            messages: self.messages@,
            temperature: self.temperature,
            max_tokens: self.max_tokens,
            stream: self.stream,
            tools: opt_tools(self.tools),
            tool_choice: self.tool_choice,
            response_format: self.response_format,
            extra: json_map_entries(self.extra),
        }
    }
}

/// Whether a request builder with this model name and these messages may be
/// built: a model that is not blank and at least one message.
pub open spec fn chat_request_ready(model: Option<Seq<char>>, message_count: nat) -> bool {
    model matches Some(m) && !is_blank(m) && message_count > 0
}

impl<'a> ChatRequestBuilder<'a> {
    /// An empty request for `client`.
    pub fn new(client: &'a ApiClient) -> (r: ChatRequestBuilder<'a>)
        ensures
            r@ == (ChatRequestModel {
                client: *client,
                model: None,
                messages: seq![],
                temperature: None,
                max_tokens: None,
                stream: None,
                tools: None,
                tool_choice: None,
                response_format: None,
                extra: Map::empty(),
            }),
    {
        let r = ChatRequestBuilder {
            client,
            model: None,
            messages: Vec::new(),
            temperature: None,
            max_tokens: None,
            stream: None,
            tools: None,
            tool_choice: None,
            response_format: None,
            extra: json_map_new(),
        };
        assert(r@.messages =~= seq![]);
        r
    }

    /// The client that sends the request.
    pub fn client(&self) -> (r: &'a ApiClient)
        ensures
            *r == self@.client,
    {
        self.client
    }

    /// Sets the model.
    pub fn model(self, model: &str) -> (r: ChatRequestBuilder<'a>)
        ensures
            r@ == (ChatRequestModel { model: Some(model@), ..self@ }),
    {
        ChatRequestBuilder { model: Some(model.to_owned()), ..self }
    }

    /// Appends a message.
    pub fn message(self, message: ChatMessage) -> (r: ChatRequestBuilder<'a>)
        ensures
            r@ == (ChatRequestModel { messages: self@.messages.push(message), ..self@ }),
    {
        let mut messages = self.messages;
        messages.push(message);
        ChatRequestBuilder { messages, ..self }
    }

    /// Appends a system message.
    pub fn system(self, content: &str) -> (r: ChatRequestBuilder<'a>)
        ensures
            r@.messages.len() == self@.messages.len() + 1,
            r@.messages.take(self@.messages.len() as int) == self@.messages,
            is_text_message(r@.messages.last(), ChatRole::System, content@),
            r@ == (ChatRequestModel { messages: r@.messages, ..self@ }),
    {
        let r = self.message(ChatMessage::system(content));
        assert(r@.messages.take(self@.messages.len() as int) =~= self@.messages);
        r
    }

    /// Appends a user message.
    pub fn user(self, content: &str) -> (r: ChatRequestBuilder<'a>)
        ensures
            r@.messages.len() == self@.messages.len() + 1,
            r@.messages.take(self@.messages.len() as int) == self@.messages,
            is_text_message(r@.messages.last(), ChatRole::User, content@),
            r@ == (ChatRequestModel { messages: r@.messages, ..self@ }),
    {
        let r = self.message(ChatMessage::user(content));
        assert(r@.messages.take(self@.messages.len() as int) =~= self@.messages);
        r
    }

    /// Appends an assistant message.
    pub fn assistant(self, content: &str) -> (r: ChatRequestBuilder<'a>)
        ensures
            r@.messages.len() == self@.messages.len() + 1,
            r@.messages.take(self@.messages.len() as int) == self@.messages,
            is_text_message(r@.messages.last(), ChatRole::Assistant, content@),
            r@ == (ChatRequestModel { messages: r@.messages, ..self@ }),
    {
        let r = self.message(ChatMessage::assistant(content));
        assert(r@.messages.take(self@.messages.len() as int) =~= self@.messages);
        r
    }

    /// Appends a user message made of several parts.
    pub fn user_parts(self, parts: Vec<ChatContentPart>) -> (r: ChatRequestBuilder<'a>)
        ensures
            r@.messages.len() == self@.messages.len() + 1,
            r@.messages.take(self@.messages.len() as int) == self@.messages,
            r@.messages.last().role == ChatRole::User,
            r@.messages.last().content == ChatContent::Parts(parts),
            r@.messages.last().tool_call_id.is_none(),
            r@.messages.last().tool_calls.is_none(),
            r@ == (ChatRequestModel { messages: r@.messages, ..self@ }),
    {
        let r = self.message(ChatMessage::user_parts(parts));
        assert(r@.messages.take(self@.messages.len() as int) =~= self@.messages);
        r
    }

    /// Sets the sampling temperature, given as the bits of an `f32`.
    pub fn temperature(self, temperature: u32) -> (r: ChatRequestBuilder<'a>)
        ensures
            r@ == (ChatRequestModel { temperature: Some(temperature), ..self@ }),
    {
        ChatRequestBuilder { temperature: Some(temperature), ..self }
    }

    /// Sets the largest number of tokens to generate.
    pub fn max_tokens(self, max_tokens: u32) -> (r: ChatRequestBuilder<'a>)
        ensures
            r@ == (ChatRequestModel { max_tokens: Some(max_tokens), ..self@ }),
    {
        ChatRequestBuilder { max_tokens: Some(max_tokens), ..self }
    }

    /// Asks for a streamed response.
    pub fn streaming(self) -> (r: ChatRequestBuilder<'a>)
        ensures
            r@ == (ChatRequestModel { stream: Some(true), ..self@ }),
    {
        ChatRequestBuilder { stream: Some(true), ..self }
    }

    /// Adds a tool that the model may use.
    pub fn tool(self, tool: Tool) -> (r: ChatRequestBuilder<'a>)
        ensures
            r@ == (ChatRequestModel { tools: push_tool(self@.tools, tool), ..self@ }),
    {
        let tools = match self.tools {
            Some(ts) => {
                let mut ts = ts;
                ts.push(tool);
                ts
            },
            None => {
                let mut ts: Vec<Tool> = Vec::new();
                ts.push(tool);
                assert(ts@ =~= seq![tool]);
                ts
            },
        };
        ChatRequestBuilder { tools: Some(tools), ..self }
    }

    /// Sets which tool the model must or may use.
    pub fn tool_choice(self, tool_choice: serde_json::Value) -> (r: ChatRequestBuilder<'a>)
        ensures
            r@ == (ChatRequestModel { tool_choice: Some(tool_choice), ..self@ }),
    {
        ChatRequestBuilder { tool_choice: Some(tool_choice), ..self }
    }

    /// Asks for an answer that is a JSON object.
    pub fn json_object(self) -> (r: ChatRequestBuilder<'a>)
        ensures
            r@ == (ChatRequestModel { response_format: Some(ResponseFormat::JsonObject), ..self@ }),
    {
        ChatRequestBuilder { response_format: Some(ResponseFormat::JsonObject), ..self }
    }

    /// Asks for an answer in JSON that follows `schema`, named `name`.
    pub fn json_schema(self, name: &str, schema: serde_json::Value) -> (r: ChatRequestBuilder<'a>)
        ensures
            r@.response_format matches Some(ResponseFormat::JsonSchema { name: n, schema: s })
                && n@ == name@ && s == schema,
            r@ == (ChatRequestModel { response_format: r@.response_format, ..self@ }),
    {
        let format = ResponseFormat::JsonSchema { name: name.to_owned(), schema };
        ChatRequestBuilder { response_format: Some(format), ..self }
    }

    /// Sets a provider-specific field of the request.
    pub fn extra(self, key: &str, value: serde_json::Value) -> (r: ChatRequestBuilder<'a>)
        ensures
            r@ == (ChatRequestModel { extra: self@.extra.insert(key@, value), ..self@ }),
    {
        let mut extra = self.extra;
        json_map_insert(&mut extra, key.to_owned(), value);
        ChatRequestBuilder { extra, ..self }
    }

    /// The request; refused when the model is missing or blank, or when there
    /// is no message.
    pub fn build(self) -> (r: Result<ChatCompletionRequest>)
        ensures
            chat_request_ready(self@.model, self@.messages.len()) <==> r is Ok,
            r is Err ==> r matches Err(ClientError::InvalidConfig(_)),
            r matches Ok(req) ==> {
                &&& Some(req.model@) == self@.model
                &&& req.messages@ == self@.messages
                &&& req.temperature == self@.temperature
                &&& req.max_tokens == self@.max_tokens
                &&& req.stream == self@.stream
                &&& opt_tools(req.tools) == self@.tools
                &&& req.tool_choice == self@.tool_choice
                &&& req.response_format == self@.response_format
                &&& json_map_entries(req.extra) == self@.extra
            },
    {
        let model = match self.model {
            Some(m) => {
                if is_blank_str(m.as_str()) {
                    return Err(ClientError::InvalidConfig("chat model is required".to_owned()));
                }
                m
            },
            None => {
                return Err(ClientError::InvalidConfig("chat model is required".to_owned()));
            },
        };
        if self.messages.len() == 0 {
            return Err(
                ClientError::InvalidConfig("at least one chat message is required".to_owned()),
            );
        }
        Ok(ChatCompletionRequest {
            model,
            messages: self.messages,
            temperature: self.temperature,
            max_tokens: self.max_tokens,
            stream: self.stream,
            tools: self.tools,
            tool_choice: self.tool_choice,
            response_format: self.response_format,
            extra: self.extra,
        })
    }
}

} // verus!
