//! Embeddings: the request and its builder. The response carries
//! floating-point vectors and is read outside the verified library.

use vstd::prelude::*;

use crate::client::ApiClient;
use crate::completions::{owned_texts, texts_view};
use crate::error::{ClientError, Result};
use crate::json::{json_map_entries, json_map_insert, json_map_new};
use crate::text::{is_blank, is_blank_str, opt_view};

verus! {

/// The input of an embeddings request: one text or several.
#[derive(Debug, Clone, PartialEq, Eq)]
pub enum EmbeddingInput {
    Text(String),
    Texts(Vec<String>),
}

/// Token counts of an embeddings response.
#[derive(Debug, Clone, PartialEq, Eq)]
pub struct EmbeddingUsage {
    pub prompt_tokens: Option<u32>,
    pub total_tokens: Option<u32>,
}

/// An embeddings request, ready to send.
#[derive(Debug, Clone, PartialEq)]
pub struct EmbeddingsRequest {
    pub model: String,
    pub input: EmbeddingInput,
    pub dimensions: Option<u32>,
    pub encoding_format: Option<String>,
    pub extra: serde_json::Map<String, serde_json::Value>,
}

/// What an embeddings request builder holds, as plain values.
pub struct EmbeddingsModel {
    pub client: ApiClient,
    pub model: Option<Seq<char>>,
    pub input: Option<EmbeddingInput>,
    pub dimensions: Option<u32>,
    pub encoding_format: Option<Seq<char>>,
    pub extra: Map<Seq<char>, serde_json::Value>,
}

/// Builds an embeddings request step by step.
pub struct EmbeddingsRequestBuilder<'a> {
    client: &'a ApiClient,
    model: Option<String>,
    input: Option<EmbeddingInput>,
    dimensions: Option<u32>,
    encoding_format: Option<String>,
    extra: serde_json::Map<String, serde_json::Value>,
}

impl<'a> View for EmbeddingsRequestBuilder<'a> {
    type V = EmbeddingsModel;

    closed spec fn view(&self) -> EmbeddingsModel {
        EmbeddingsModel {
            client: *self.client,
            model: opt_view(self.model),
            input: self.input,
            dimensions: self.dimensions,
            encoding_format: opt_view(self.encoding_format),
            extra: json_map_entries(self.extra),
        }
    }
}

impl<'a> EmbeddingsRequestBuilder<'a> {
    /// An empty request for `client`.
    pub fn new(client: &'a ApiClient) -> (r: EmbeddingsRequestBuilder<'a>)
        ensures
            r@ == (EmbeddingsModel {
                client: *client,
                model: None,
                input: None,
                dimensions: None,
                encoding_format: None,
                extra: Map::empty(),
            }),
    {
        EmbeddingsRequestBuilder {
            client,
            model: None,
            input: None,
            dimensions: None,
            encoding_format: None,
            extra: json_map_new(),
        }
    }

    /// The client that sends the request.
    pub fn client(&self) -> (r: &'a ApiClient)
        ensures
            *r == self@.client,
    {
        self.client
    }

    /// Sets the model.
    pub fn model(self, model: &str) -> (r: EmbeddingsRequestBuilder<'a>)
        ensures
            r@ == (EmbeddingsModel { model: Some(model@), ..self@ }),
    {
        EmbeddingsRequestBuilder { model: Some(model.to_owned()), ..self }
    }

    /// Sets one text to embed.
    pub fn input(self, input: &str) -> (r: EmbeddingsRequestBuilder<'a>)
        ensures
            r@.input matches Some(EmbeddingInput::Text(t)) && t@ == input@,
            r@ == (EmbeddingsModel { input: r@.input, ..self@ }),
    {
        EmbeddingsRequestBuilder { input: Some(EmbeddingInput::Text(input.to_owned())), ..self }
    }

    /// Sets several texts to embed.
    pub fn inputs(self, inputs: &[&str]) -> (r: EmbeddingsRequestBuilder<'a>)
        ensures
            r@.input matches Some(EmbeddingInput::Texts(ts)) && texts_view(ts@)
                == inputs@.map_values(|s: &str| s@),
            r@ == (EmbeddingsModel { input: r@.input, ..self@ }),
    {
        let texts = owned_texts(inputs);
        EmbeddingsRequestBuilder { input: Some(EmbeddingInput::Texts(texts)), ..self }
    }

    /// Sets the number of dimensions of the vectors.
    pub fn dimensions(self, dimensions: u32) -> (r: EmbeddingsRequestBuilder<'a>)
        ensures
            r@ == (EmbeddingsModel { dimensions: Some(dimensions), ..self@ }),
    {
        EmbeddingsRequestBuilder { dimensions: Some(dimensions), ..self }
    }

    /// Sets how the vectors are encoded (`float` or `base64`).
    pub fn encoding_format(self, encoding_format: &str) -> (r: EmbeddingsRequestBuilder<'a>)
        ensures
            r@ == (EmbeddingsModel { encoding_format: Some(encoding_format@), ..self@ }),
    {
        EmbeddingsRequestBuilder { encoding_format: Some(encoding_format.to_owned()), ..self }
    }

    /// Sets a provider-specific field of the request.
    pub fn extra(self, key: &str, value: serde_json::Value) -> (r: EmbeddingsRequestBuilder<'a>)
        ensures
            r@ == (EmbeddingsModel { extra: self@.extra.insert(key@, value), ..self@ }),
    {
        let mut extra = self.extra;
        json_map_insert(&mut extra, key.to_owned(), value);
        EmbeddingsRequestBuilder { extra, ..self }
    }

    /// The request; refused when the model is missing or blank, or when
    /// there is no input.
    pub fn build(self) -> (r: Result<EmbeddingsRequest>)
        ensures
            (self@.model matches Some(m) && !is_blank(m) && self@.input is Some) <==> r is Ok,
            r is Err ==> r matches Err(ClientError::InvalidConfig(_)),
            r matches Ok(req) ==> {
                &&& Some(req.model@) == self@.model
                &&& Some(req.input) == self@.input
                &&& req.dimensions == self@.dimensions
                &&& opt_view(req.encoding_format) == self@.encoding_format
                &&& json_map_entries(req.extra) == self@.extra
            },
    {
        let model = match self.model {
            Some(m) => {
                if is_blank_str(m.as_str()) {
                    return Err(ClientError::InvalidConfig("embedding model is required".to_owned()));
                }
                m
            },
            None => {
                return Err(ClientError::InvalidConfig("embedding model is required".to_owned()));
            },
        };
        let input = match self.input {
            Some(i) => i,
            None => {
                return Err(ClientError::InvalidConfig("embedding input is required".to_owned()));
            },
        };
        Ok(EmbeddingsRequest {
            model,
            input,
            dimensions: self.dimensions,
            encoding_format: self.encoding_format,
            extra: self.extra,
        })
    }
}

} // verus!
