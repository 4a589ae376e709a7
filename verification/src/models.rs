//! Models: the paths of the model endpoints and the objects they return.

use vstd::prelude::*;

use crate::client::ApiClient;
use crate::text::concat_str;

verus! {

/// A model that the provider serves.
#[derive(Debug, Clone, PartialEq, Eq)]
pub struct Model {
    pub id: String,
    pub object: Option<String>,
    pub created: Option<u64>,
    pub owned_by: Option<String>,
}

/// The models that the provider serves.
#[derive(Debug, Clone, PartialEq, Eq)]
pub struct ListModelsResponse {
    pub object: Option<String>,
    pub data: Vec<Model>,
}

/// The answer to a model deletion.
#[derive(Debug, Clone, PartialEq, Eq)]
pub struct DeletedModel {
    pub id: String,
    pub object: Option<String>,
    pub deleted: bool,
}

/// The model endpoints of a client.
pub struct Models<'a> {
    client: &'a ApiClient,
}

impl<'a> Models<'a> {
    /// The client that sends the requests.
    pub closed spec fn spec_client(&self) -> ApiClient {
        *self.client
    }

    /// The model endpoints of `client`.
    pub fn new(client: &'a ApiClient) -> (r: Models<'a>)
        ensures
            r.spec_client() == *client,
    {
        Models { client }
    }

    /// The client that sends the requests.
    pub fn client(&self) -> (r: &'a ApiClient)
        ensures
            *r == self.spec_client(),
    {
        self.client
    }

    /// The path that lists the models.
    pub fn list_path() -> (r: String)
        ensures
            r@ == "models"@,
    {
        "models".to_owned()
    }

    /// The path of the model `model`.
    pub fn model_path(model: &str) -> (r: String)
        ensures
            r@ == "models/"@ + model@,
    {
        concat_str("models/", model)
    }
}

} // verus!
