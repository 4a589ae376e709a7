//! Legacy text completions: the request, its builder and the response.

use vstd::prelude::*;

use crate::client::ApiClient;
use crate::error::{ClientError, Result};
use crate::json::{json_map_entries, json_map_insert, json_map_new};
use crate::text::{is_blank, is_blank_str, opt_view};

verus! {

/// The prompt of a completion: one text or several.
#[derive(Debug, Clone, PartialEq, Eq)]
pub enum CompletionPrompt {
    Text(String),
    Texts(Vec<String>),
}

/// A completion request, ready to send.
#[derive(Debug, Clone, PartialEq)]
pub struct CompletionRequest {
    pub model: String,
    pub prompt: CompletionPrompt,
    /// The sampling temperature, as the bits of an `f32` (`f32::to_bits`).
    pub temperature: Option<u32>,
    pub max_tokens: Option<u32>,
    pub extra: serde_json::Map<String, serde_json::Value>,
}

/// One choice of a completion.
#[derive(Debug, Clone, PartialEq)]
pub struct CompletionChoice {
    pub text: String,
    pub index: Option<u32>,
    pub finish_reason: Option<String>,
    pub extra: serde_json::Map<String, serde_json::Value>,
}

/// A completion.
#[derive(Debug, Clone, PartialEq)]
pub struct CompletionResponse {
    pub id: Option<String>,
    pub object: Option<String>,
    pub created: Option<u64>,
    pub model: Option<String>,
    pub choices: Vec<CompletionChoice>,
    pub extra: serde_json::Map<String, serde_json::Value>,
}

impl CompletionResponse {
    /// The text of the first choice, if there is a choice.
    pub fn first_text(&self) -> (r: Option<&str>)
        ensures
            self.choices@.len() == 0 <==> r is None,
            r matches Some(t) ==> t@ == self.choices@[0].text@,
    {
        if self.choices.len() > 0 {
            Some(self.choices[0].text.as_str())
        } else {
            None
        }
    }
}

/// The view of a list of strings.
pub open spec fn texts_view(v: Seq<String>) -> Seq<Seq<char>> {
    v.map_values(|s: String| s@)
}

/// Copies a list of string slices into owned strings.
pub fn owned_texts(items: &[&str]) -> (r: Vec<String>)
    ensures
        texts_view(r@) == items@.map_values(|s: &str| s@),
{
    let mut out: Vec<String> = Vec::new();
    let mut i: usize = 0;
    while i < items.len()
        invariant
            i <= items@.len(),
            texts_view(out@) == items@.take(i as int).map_values(|s: &str| s@),
        decreases items@.len() - i,
    {
        let item: &str = items[i];
        let owned = item.to_owned();
        assert(owned@ == items@[i as int]@);
        out.push(owned);
        assert(items@.take(i + 1).map_values(|s: &str| s@) =~= items@.take(i as int).map_values(
            |s: &str| s@,
        ).push(owned@));
        assert(texts_view(out@) =~= items@.take(i + 1).map_values(|s: &str| s@));
        i = i + 1;
    }
    assert(items@.take(items@.len() as int) =~= items@);
    out
}

/// What a completion request builder holds, as plain values.
pub struct CompletionModel {
    pub client: ApiClient,
    pub model: Option<Seq<char>>,
    pub prompt: Option<CompletionPrompt>,
    pub temperature: Option<u32>,
    pub max_tokens: Option<u32>,
    pub extra: Map<Seq<char>, serde_json::Value>,
}

/// Builds a completion request step by step.
pub struct CompletionRequestBuilder<'a> {
    client: &'a ApiClient,
    model: Option<String>,
    prompt: Option<CompletionPrompt>,
    temperature: Option<u32>,
    max_tokens: Option<u32>,
    extra: serde_json::Map<String, serde_json::Value>,
}

impl<'a> View for CompletionRequestBuilder<'a> {
    type V = CompletionModel;

    closed spec fn view(&self) -> CompletionModel {
        CompletionModel {
            client: *self.client,
            model: opt_view(self.model),
            prompt: self.prompt,
            temperature: self.temperature,
            max_tokens: self.max_tokens,
            extra: json_map_entries(self.extra),
        }
    }
}

impl<'a> CompletionRequestBuilder<'a> {
    /// An empty request for `client`.
    pub fn new(client: &'a ApiClient) -> (r: CompletionRequestBuilder<'a>)
        ensures
            r@ == (CompletionModel {
                client: *client,
                model: None,
                prompt: None,
                temperature: None,
                max_tokens: None,
                extra: Map::empty(),
            }),
    {
        CompletionRequestBuilder {
            client,
            model: None,
            prompt: None,
            temperature: None,
            max_tokens: None,
            extra: json_map_new(),
        }
    }

    /// The client that sends the request.
    pub fn client(&self) -> (r: &'a ApiClient)
        ensures
            *r == self@.client,
    {
        self.client
    }

    /// Sets the model.
    pub fn model(self, model: &str) -> (r: CompletionRequestBuilder<'a>)
        ensures
            r@ == (CompletionModel { model: Some(model@), ..self@ }),
    {
        CompletionRequestBuilder { model: Some(model.to_owned()), ..self }
    }

    /// Sets one prompt.
    pub fn prompt(self, prompt: &str) -> (r: CompletionRequestBuilder<'a>)
        ensures
            r@.prompt matches Some(CompletionPrompt::Text(t)) && t@ == prompt@,
            r@ == (CompletionModel { prompt: r@.prompt, ..self@ }),
    {
        CompletionRequestBuilder { prompt: Some(CompletionPrompt::Text(prompt.to_owned())), ..self }
    }

    /// Sets several prompts.
    pub fn prompts(self, prompts: &[&str]) -> (r: CompletionRequestBuilder<'a>)
        ensures
            r@.prompt matches Some(CompletionPrompt::Texts(ts)) && texts_view(ts@)
                == prompts@.map_values(|s: &str| s@),
            r@ == (CompletionModel { prompt: r@.prompt, ..self@ }),
    {
        let texts = owned_texts(prompts);
        CompletionRequestBuilder { prompt: Some(CompletionPrompt::Texts(texts)), ..self }
    }

    /// Sets the sampling temperature, given as the bits of an `f32`.
    pub fn temperature(self, temperature: u32) -> (r: CompletionRequestBuilder<'a>)
        ensures
            r@ == (CompletionModel { temperature: Some(temperature), ..self@ }),
    {
        CompletionRequestBuilder { temperature: Some(temperature), ..self }
    }

    /// Sets the largest number of tokens to generate.
    pub fn max_tokens(self, max_tokens: u32) -> (r: CompletionRequestBuilder<'a>)
        ensures
            r@ == (CompletionModel { max_tokens: Some(max_tokens), ..self@ }),
    {
        CompletionRequestBuilder { max_tokens: Some(max_tokens), ..self }
    }

    /// Sets a provider-specific field of the request.
    pub fn extra(self, key: &str, value: serde_json::Value) -> (r: CompletionRequestBuilder<'a>)
        ensures
            r@ == (CompletionModel { extra: self@.extra.insert(key@, value), ..self@ }),
    {
        let mut extra = self.extra;
        json_map_insert(&mut extra, key.to_owned(), value);
        CompletionRequestBuilder { extra, ..self }
    }

    /// The request; refused when the model is missing or blank, or when
    /// there is no prompt.
    pub fn build(self) -> (r: Result<CompletionRequest>)
        ensures
            (self@.model matches Some(m) && !is_blank(m) && self@.prompt is Some) <==> r is Ok,
            r is Err ==> r matches Err(ClientError::InvalidConfig(_)),
            r matches Ok(req) ==> {
                &&& Some(req.model@) == self@.model
                &&& Some(req.prompt) == self@.prompt
                &&& req.temperature == self@.temperature
                &&& req.max_tokens == self@.max_tokens
                &&& json_map_entries(req.extra) == self@.extra
            },
    {
        let model = match self.model {
            Some(m) => {
                if is_blank_str(m.as_str()) {
                    return Err(ClientError::InvalidConfig("completion model is required".to_owned()));
                }
                m
            },
            None => {
                return Err(ClientError::InvalidConfig("completion model is required".to_owned()));
            },
        };
        let prompt = match self.prompt {
            Some(p) => p,
            None => {
                return Err(ClientError::InvalidConfig("completion prompt is required".to_owned()));
            },
        };
        Ok(CompletionRequest {
            model,
            prompt,
            temperature: self.temperature,
            max_tokens: self.max_tokens,
            extra: self.extra,
        })
    }
}

} // verus!
