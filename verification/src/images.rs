//! Image generation: the request and its builder. The response is read
//! outside the verified library.

use vstd::prelude::*;

use crate::client::ApiClient;
use crate::error::{ClientError, Result};
use crate::json::{json_map_entries, json_map_insert, json_map_new};
use crate::text::{is_blank, is_blank_str, opt_view};

verus! {

/// An image generation request, ready to send.
#[derive(Debug, Clone, PartialEq)]
pub struct ImageGenerationRequest {
    pub prompt: String,
    pub model: Option<String>,
    pub n: Option<u32>,
    pub size: Option<String>,
    pub response_format: Option<String>,
    pub extra: serde_json::Map<String, serde_json::Value>,
}

/// What an image request builder holds, as plain values.
pub struct ImagesModel {
    pub client: ApiClient,
    pub model: Option<Seq<char>>,
    pub prompt: Option<Seq<char>>,
    pub n: Option<u32>,
    pub size: Option<Seq<char>>,
    pub response_format: Option<Seq<char>>,
    pub extra: Map<Seq<char>, serde_json::Value>,
}

/// Builds an image generation request step by step.
pub struct ImagesRequestBuilder<'a> {
    client: &'a ApiClient,
    model: Option<String>,
    prompt: Option<String>,
    n: Option<u32>,
    size: Option<String>,
    response_format: Option<String>,
    extra: serde_json::Map<String, serde_json::Value>,
}

impl<'a> View for ImagesRequestBuilder<'a> {
    type V = ImagesModel;

    closed spec fn view(&self) -> ImagesModel {
        ImagesModel {
            client: *self.client,
            model: opt_view(self.model),
            prompt: opt_view(self.prompt),
            n: self.n,
            size: opt_view(self.size),
            response_format: opt_view(self.response_format),
            extra: json_map_entries(self.extra),
        }
    }
}

impl<'a> ImagesRequestBuilder<'a> {
    /// An empty request for `client`.
    pub fn new(client: &'a ApiClient) -> (r: ImagesRequestBuilder<'a>)
        ensures
            r@ == (ImagesModel {
                client: *client,
                model: None,
                prompt: None,
                n: None,
                size: None,
                response_format: None,
                extra: Map::empty(),
            }),
    {
        ImagesRequestBuilder {
            client,
            model: None,
            prompt: None,
            n: None,
            size: None,
            response_format: None,
            extra: json_map_new(),
        }
    }

    /// The client that sends the request.
    pub fn client(&self) -> (r: &'a ApiClient)
        ensures
            *r == self@.client,
    {
        self.client
    }

    /// Sets the model.
    pub fn model(self, model: &str) -> (r: ImagesRequestBuilder<'a>)
        ensures
            r@ == (ImagesModel { model: Some(model@), ..self@ }),
    {
        ImagesRequestBuilder { model: Some(model.to_owned()), ..self }
    }

    /// Sets the prompt.
    pub fn prompt(self, prompt: &str) -> (r: ImagesRequestBuilder<'a>)
        ensures
            r@ == (ImagesModel { prompt: Some(prompt@), ..self@ }),
    {
        ImagesRequestBuilder { prompt: Some(prompt.to_owned()), ..self }
    }

    /// Sets how many images to generate.
    pub fn n(self, n: u32) -> (r: ImagesRequestBuilder<'a>)
        ensures
            r@ == (ImagesModel { n: Some(n), ..self@ }),
    {
        ImagesRequestBuilder { n: Some(n), ..self }
    }

    /// Sets the size of the images, such as `1024x1024`.
    pub fn size(self, size: &str) -> (r: ImagesRequestBuilder<'a>)
        ensures
            r@ == (ImagesModel { size: Some(size@), ..self@ }),
    {
        ImagesRequestBuilder { size: Some(size.to_owned()), ..self }
    }

    /// Asks for the images as base64 JSON.
    pub fn b64_json(self) -> (r: ImagesRequestBuilder<'a>)
        ensures
            r@ == (ImagesModel { response_format: Some("b64_json"@), ..self@ }),
    {
        ImagesRequestBuilder { response_format: Some("b64_json".to_owned()), ..self }
    }

    /// Asks for the images as URLs.
    pub fn url(self) -> (r: ImagesRequestBuilder<'a>)
        ensures
            r@ == (ImagesModel { response_format: Some("url"@), ..self@ }),
    {
        ImagesRequestBuilder { response_format: Some("url".to_owned()), ..self }
    }

    /// Sets a provider-specific field of the request.
    pub fn extra(self, key: &str, value: serde_json::Value) -> (r: ImagesRequestBuilder<'a>)
        ensures
            r@ == (ImagesModel { extra: self@.extra.insert(key@, value), ..self@ }),
    {
        let mut extra = self.extra;
        json_map_insert(&mut extra, key.to_owned(), value);
        ImagesRequestBuilder { extra, ..self }
    }

    /// The request; refused when the prompt is missing or blank.
    pub fn build(self) -> (r: Result<ImageGenerationRequest>)
        ensures
            (self@.prompt matches Some(p) && !is_blank(p)) <==> r is Ok,
            r is Err ==> r matches Err(ClientError::InvalidConfig(_)),
            r matches Ok(req) ==> {
                &&& Some(req.prompt@) == self@.prompt
                &&& opt_view(req.model) == self@.model
                &&& req.n == self@.n
                &&& opt_view(req.size) == self@.size
                &&& opt_view(req.response_format) == self@.response_format
                &&& json_map_entries(req.extra) == self@.extra
            },
    {
        let prompt = match self.prompt {
            Some(p) => {
                if is_blank_str(p.as_str()) {
                    return Err(ClientError::InvalidConfig("image prompt is required".to_owned()));
                }
                p
            },
            None => {
                return Err(ClientError::InvalidConfig("image prompt is required".to_owned()));
            },
        };
        Ok(ImageGenerationRequest {
            prompt,
            model: self.model,
            n: self.n,
            size: self.size,
            response_format: self.response_format,
            extra: self.extra,
        })
    }
}

} // verus!
