//! Moderation: the request and its builder. The response is read outside the
//! verified library.

use vstd::prelude::*;

use crate::client::ApiClient;
use crate::completions::{owned_texts, texts_view};
use crate::error::{ClientError, Result};
use crate::json::{json_map_entries, json_map_insert, json_map_new};
use crate::text::opt_view;

verus! {

/// The input of a moderation request: one text or several.
#[derive(Debug, Clone, PartialEq, Eq)]
pub enum ModerationInput {
    Text(String),
    Texts(Vec<String>),
}

/// A moderation request, ready to send.
#[derive(Debug, Clone, PartialEq)]
pub struct ModerationRequest {
    pub input: ModerationInput,
    pub model: Option<String>,
    pub extra: serde_json::Map<String, serde_json::Value>,
}

/// What a moderation request builder holds, as plain values.
pub struct ModerationModel {
    pub client: ApiClient,
    pub input: Option<ModerationInput>,
    pub model: Option<Seq<char>>,
    pub extra: Map<Seq<char>, serde_json::Value>,
}

/// Builds a moderation request step by step.
pub struct ModerationRequestBuilder<'a> {
    client: &'a ApiClient,
    input: Option<ModerationInput>,
    model: Option<String>,
    extra: serde_json::Map<String, serde_json::Value>,
}

impl<'a> View for ModerationRequestBuilder<'a> {
    type V = ModerationModel;

    closed spec fn view(&self) -> ModerationModel {
        ModerationModel {
            client: *self.client,
            input: self.input,
            model: opt_view(self.model),
            extra: json_map_entries(self.extra),
        }
    }
}

impl<'a> ModerationRequestBuilder<'a> {
    /// An empty request for `client`.
    pub fn new(client: &'a ApiClient) -> (r: ModerationRequestBuilder<'a>)
        ensures
            r@ == (ModerationModel { client: *client, input: None, model: None, extra: Map::empty() }),
    {
        ModerationRequestBuilder { client, input: None, model: None, extra: json_map_new() }
    }

    /// The client that sends the request.
    pub fn client(&self) -> (r: &'a ApiClient)
        ensures
            *r == self@.client,
    {
        self.client
    }

    /// Sets the model.
    pub fn model(self, model: &str) -> (r: ModerationRequestBuilder<'a>)
        ensures
            r@ == (ModerationModel { model: Some(model@), ..self@ }),
    {
        ModerationRequestBuilder { model: Some(model.to_owned()), ..self }
    }

    /// Sets one text to classify.
    pub fn input(self, input: &str) -> (r: ModerationRequestBuilder<'a>)
        ensures
            r@.input matches Some(ModerationInput::Text(t)) && t@ == input@,
            r@ == (ModerationModel { input: r@.input, ..self@ }),
    {
        ModerationRequestBuilder { input: Some(ModerationInput::Text(input.to_owned())), ..self }
    }

    /// Sets several texts to classify.
    pub fn inputs(self, inputs: &[&str]) -> (r: ModerationRequestBuilder<'a>)
        ensures
            r@.input matches Some(ModerationInput::Texts(ts)) && texts_view(ts@)
                == inputs@.map_values(|s: &str| s@),
            r@ == (ModerationModel { input: r@.input, ..self@ }),
    {
        let texts = owned_texts(inputs);
        ModerationRequestBuilder { input: Some(ModerationInput::Texts(texts)), ..self }
    }

    /// Sets a provider-specific field of the request.
    pub fn extra(self, key: &str, value: serde_json::Value) -> (r: ModerationRequestBuilder<'a>)
        ensures
            r@ == (ModerationModel { extra: self@.extra.insert(key@, value), ..self@ }),
    {
        let mut extra = self.extra;
        json_map_insert(&mut extra, key.to_owned(), value);
        ModerationRequestBuilder { extra, ..self }
    }

    /// The request; refused when there is no input.
    pub fn build(self) -> (r: Result<ModerationRequest>)
        ensures
            self@.input is Some <==> r is Ok,
            r is Err ==> r matches Err(ClientError::InvalidConfig(_)),
            r matches Ok(req) ==> {
                &&& Some(req.input) == self@.input
                &&& opt_view(req.model) == self@.model
                &&& json_map_entries(req.extra) == self@.extra
            },
    {
        let input = match self.input {
            Some(i) => i,
            None => {
                return Err(ClientError::InvalidConfig("moderation input is required".to_owned()));
            },
        };
        Ok(ModerationRequest { input, model: self.model, extra: self.extra })
    }
}

} // verus!
