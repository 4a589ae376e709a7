//! The prompt-first API: a prompt, with an optional system instruction,
//! turned into a chat request.

use vstd::prelude::*;

use crate::chat::{
    is_text_message, opt_tools, ChatMessage, ChatRequestBuilder, ChatRequestModel, ChatRole,
    ResponseFormat, Tool,
};
use crate::client::ApiClient;
use crate::error::{ClientError, Result};
use crate::text::opt_view;

verus! {

/// What a prompt builder holds, as plain values.
pub struct PromptModel {
    pub client: ApiClient,
    pub model: Option<Seq<char>>,
    pub system: Option<Seq<char>>,
    pub prompt: Seq<char>,
    pub temperature: Option<u32>,
    pub max_tokens: Option<u32>,
    pub tools: Seq<Tool>,
    pub json_object: bool,
    pub json_schema: Option<(Seq<char>, serde_json::Value)>,
}

/// Builds a single-prompt chat request.
pub struct PromptBuilder<'a> {
    client: &'a ApiClient,
    model: Option<String>,
    system: Option<String>,
    prompt: String,
    temperature: Option<u32>,
    max_tokens: Option<u32>,
    tools: Vec<Tool>,
    json_object: bool,
    json_schema: Option<(String, serde_json::Value)>,
}

/// The view of an optional schema with its name.
pub open spec fn opt_schema(s: Option<(String, serde_json::Value)>) -> Option<(Seq<char>, serde_json::Value)> {
    match s {
        Some((n, v)) => Some((n@, v)),
        None => None,
    }
}

impl<'a> View for PromptBuilder<'a> {
    type V = PromptModel;

    closed spec fn view(&self) -> PromptModel {
        PromptModel {
            client: *self.client,
            model: opt_view(self.model),
            system: opt_view(self.system),
            prompt: self.prompt@,
            temperature: self.temperature,
            max_tokens: self.max_tokens,
            tools: self.tools@,
            json_object: self.json_object,
            json_schema: opt_schema(self.json_schema),
        }
    }
}

/// The model that a prompt runs with: its own, else the client's default.
pub open spec fn prompt_model(p: PromptModel) -> Option<Seq<char>> {
    match p.model {
        Some(m) => Some(m),
        None => p.client.spec_config()@.default_model,
    }
}

/// A prompt that sets a model runs with it, whatever the client's default;
/// only a prompt without a model takes the default, and without either there
/// is no model.
pub proof fn lemma_prompt_model_prefers_own(p: PromptModel)
    ensures
        p.model matches Some(m) ==> prompt_model(p) == Some(m),
        p.model is None ==> prompt_model(p) == p.client.spec_config()@.default_model,
        prompt_model(p) is None <==> p.model is None && p.client.spec_config()@.default_model is None,
{
}

/// The messages of a prompt: the system instruction, if any, then the prompt
/// as a user message.
pub open spec fn prompt_messages_spec(msgs: Seq<ChatMessage>, system: Option<Seq<char>>, prompt: Seq<char>) -> bool {
    match system {
        Some(s) => msgs.len() == 2 && is_text_message(msgs[0], ChatRole::System, s)
            && is_text_message(msgs[1], ChatRole::User, prompt),
        None => msgs.len() == 1 && is_text_message(msgs[0], ChatRole::User, prompt),
    }
}

/// Whether `f` is the answer format that a prompt asks for: its schema, else
/// any JSON object when it asks for JSON, else none.
pub open spec fn prompt_format_spec(f: Option<ResponseFormat>, p: PromptModel) -> bool {
    match p.json_schema {
        Some((n, s)) => f matches Some(ResponseFormat::JsonSchema { name, schema }) && name@ == n
            && schema == s,
        None => if p.json_object {
            f == Some(ResponseFormat::JsonObject)
        } else {
            f.is_none()
        },
    }
}

impl<'a> PromptBuilder<'a> {
    /// A prompt for `client`.
    pub fn new(client: &'a ApiClient, prompt: &str) -> (r: PromptBuilder<'a>)
        ensures
            r@ == (PromptModel {
                client: *client,
                model: None,
                system: None,
                prompt: prompt@,
                temperature: None,
                max_tokens: None,
                tools: seq![],
                json_object: false,
                json_schema: None,
            }),
    {
        let r = PromptBuilder {
            client,
            model: None,
            system: None,
            prompt: prompt.to_owned(),
            temperature: None,
            max_tokens: None,
            tools: Vec::new(),
            json_object: false,
            json_schema: None,
        };
        assert(r@.tools =~= seq![]);
        r
    }

    /// Sets the model.
    pub fn model(self, model: &str) -> (r: PromptBuilder<'a>)
        ensures
            r@ == (PromptModel { model: Some(model@), ..self@ }),
    {
        PromptBuilder { model: Some(model.to_owned()), ..self }
    }

    /// Sets the system instruction.
    pub fn system(self, system: &str) -> (r: PromptBuilder<'a>)
        ensures
            r@ == (PromptModel { system: Some(system@), ..self@ }),
    {
        PromptBuilder { system: Some(system.to_owned()), ..self }
    }

    /// Sets the sampling temperature, given as the bits of an `f32`.
    pub fn temperature(self, temperature: u32) -> (r: PromptBuilder<'a>)
        ensures
            r@ == (PromptModel { temperature: Some(temperature), ..self@ }),
    {
        PromptBuilder { temperature: Some(temperature), ..self }
    }

    /// Sets the largest number of tokens to generate.
    pub fn max_tokens(self, max_tokens: u32) -> (r: PromptBuilder<'a>)
        ensures
            r@ == (PromptModel { max_tokens: Some(max_tokens), ..self@ }),
    {
        PromptBuilder { max_tokens: Some(max_tokens), ..self }
    }

    /// Adds a tool that the model may use.
    pub fn tool(self, tool: Tool) -> (r: PromptBuilder<'a>)
        ensures
            r@ == (PromptModel { tools: self@.tools.push(tool), ..self@ }),
    {
        let mut tools = self.tools;
        tools.push(tool);
        PromptBuilder { tools, ..self }
    }

    /// Asks for an answer that is a JSON object.
    pub fn json_object(self) -> (r: PromptBuilder<'a>)
        ensures
            r@ == (PromptModel { json_object: true, ..self@ }),
    {
        PromptBuilder { json_object: true, ..self }
    }

    /// Asks for an answer in JSON that follows `schema`, named `name`.
    pub fn json_schema(self, name: &str, schema: serde_json::Value) -> (r: PromptBuilder<'a>)
        ensures
            r@ == (PromptModel { json_schema: Some((name@, schema)), ..self@ }),
    {
        PromptBuilder { json_schema: Some((name.to_owned(), schema)), ..self }
    }

    /// The chat request of the prompt: its model (or the client's default),
    /// the system instruction and the prompt as messages, and its settings,
    /// tools and answer format; refused when there is no model at all.
    pub fn into_chat(self) -> (r: Result<ChatRequestBuilder<'a>>)
        ensures
            prompt_model(self@) is None <==> r is Err,
            r is Err ==> r matches Err(ClientError::InvalidConfig(_)),
            r matches Ok(chat) ==> {
                &&& chat@.client == self@.client
                &&& chat@.model == prompt_model(self@)
                &&& prompt_messages_spec(chat@.messages, self@.system, self@.prompt)
                &&& chat@.temperature == self@.temperature
                &&& chat@.max_tokens == self@.max_tokens
                &&& chat@.stream.is_none()
                &&& chat@.tools == (if self@.tools.len() == 0 {
                    None
                } else {
                    Some(self@.tools)
                })
                &&& chat@.tool_choice.is_none()
                &&& prompt_format_spec(chat@.response_format, self@)
                &&& chat@.extra == Map::<Seq<char>, serde_json::Value>::empty()
            },
    {
        let ghost start = self@;
        let model: String = match self.model {
            Some(m) => m,
            None => match self.client.default_model() {
                Some(m) => m.to_owned(),
                None => {
                    return Err(ClientError::InvalidConfig("prompt model is required".to_owned()));
                },
            },
        };
        let mut chat = self.client.chat().model(model.as_str());
        if let Some(system) = self.system {
            chat = chat.system(system.as_str());
        }
        chat = chat.user(self.prompt.as_str());
        assert(prompt_messages_spec(chat@.messages, start.system, start.prompt)) by {
            if start.system is Some {
                assert(chat@.messages.take(1).last() == chat@.messages[0]);
            }
        }
        let ghost messages = chat@.messages;
        if let Some(temperature) = self.temperature {
            chat = chat.temperature(temperature);
        }
        if let Some(max_tokens) = self.max_tokens {
            chat = chat.max_tokens(max_tokens);
        }
        let mut remaining = self.tools;
        let ghost all_tools = remaining@;
        let mut added: usize = 0;
        let total = remaining.len();
        assert(all_tools.skip(0) =~= all_tools);
        while remaining.len() > 0
            invariant
                added + remaining@.len() == all_tools.len(),
                all_tools.len() == total,
                remaining@ == all_tools.skip(added as int),
                chat@.tools == (if added == 0 {
                    None
                } else {
                    Some(all_tools.take(added as int))
                }),
                chat@.client == start.client,
                chat@.model == prompt_model(start),
                chat@.messages == messages,
                chat@.temperature == start.temperature,
                chat@.max_tokens == start.max_tokens,
                chat@.stream.is_none(),
                chat@.tool_choice.is_none(),
                chat@.response_format.is_none(),
                chat@.extra == Map::<Seq<char>, serde_json::Value>::empty(),
            decreases remaining@.len(),
        {
            let tool = remaining.remove(0);
            assert(tool == all_tools[added as int]);
            chat = chat.tool(tool);
            assert(all_tools.take(added + 1) =~= all_tools.take(added as int).push(tool));
            assert(remaining@ =~= all_tools.skip(added + 1));
            added = added + 1;
        }
        assert(all_tools.take(all_tools.len() as int) =~= all_tools);
        if let Some((name, schema)) = self.json_schema {
            chat = chat.json_schema(name.as_str(), schema);
        } else if self.json_object {
            chat = chat.json_object();
        }
        Ok(chat)
    }
}

} // verus!
