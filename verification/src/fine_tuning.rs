//! Fine-tuning jobs: the paths of the job endpoints, and the job request with
//! its builder. The job objects are read outside the verified library.

use vstd::prelude::*;

use crate::client::ApiClient;
use crate::error::{ClientError, Result};
use crate::json::{json_map_entries, json_map_insert, json_map_new};
use crate::text::{concat_str, opt_view};

verus! {

/// The fine-tuning endpoints of a client.
pub struct FineTuning<'a> {
    client: &'a ApiClient,
}

impl<'a> FineTuning<'a> {
    /// The client that sends the requests.
    pub closed spec fn spec_client(&self) -> ApiClient {
        *self.client
    }

    /// The fine-tuning endpoints of `client`.
    pub fn new(client: &'a ApiClient) -> (r: FineTuning<'a>)
        ensures
            r.spec_client() == *client,
    {
        FineTuning { client }
    }

    /// The client that sends the requests.
    pub fn client(&self) -> (r: &'a ApiClient)
        ensures
            *r == self.spec_client(),
    {
        self.client
    }

    /// A request that creates a job.
    pub fn create(&self) -> (r: FineTuningJobRequestBuilder<'a>)
        ensures
            r@ == (FineTuningJobModel {
                client: self.spec_client(),
                model: None,
                training_file: None,
                validation_file: None,
                suffix: None,
                hyperparameters: None,
                extra: Map::empty(),
            }),
    {
        FineTuningJobRequestBuilder::new(self.client)
    }

    /// The path that lists the jobs.
    pub fn list_path() -> (r: String)
        ensures
            r@ == "fine_tuning/jobs"@,
    {
        "fine_tuning/jobs".to_owned()
    }

    /// The path of the job `job_id`.
    pub fn job_path(job_id: &str) -> (r: String)
        ensures
            r@ == "fine_tuning/jobs/"@ + job_id@,
    {
        concat_str("fine_tuning/jobs/", job_id)
    }

    /// The path that cancels the job `job_id`.
    pub fn cancel_path(job_id: &str) -> (r: String)
        ensures
            r@ == "fine_tuning/jobs/"@ + job_id@ + "/cancel"@,
    {
        let job = concat_str("fine_tuning/jobs/", job_id);
        concat_str(job.as_str(), "/cancel")
    }
}

/// A request that creates a fine-tuning job, ready to send.
#[derive(Debug, Clone, PartialEq)]
pub struct FineTuningJobRequest {
    pub model: String,
    pub training_file: String,
    pub validation_file: Option<String>,
    pub suffix: Option<String>,
    pub hyperparameters: Option<serde_json::Value>,
    pub extra: serde_json::Map<String, serde_json::Value>,
}

/// What a fine-tuning job request builder holds, as plain values.
pub struct FineTuningJobModel {
    pub client: ApiClient,
    pub model: Option<Seq<char>>,
    pub training_file: Option<Seq<char>>,
    pub validation_file: Option<Seq<char>>,
    pub suffix: Option<Seq<char>>,
    pub hyperparameters: Option<serde_json::Value>,
    pub extra: Map<Seq<char>, serde_json::Value>,
}

/// Builds a request that creates a fine-tuning job.
pub struct FineTuningJobRequestBuilder<'a> {
    client: &'a ApiClient,
    model: Option<String>,
    training_file: Option<String>,
    validation_file: Option<String>,
    suffix: Option<String>,
    hyperparameters: Option<serde_json::Value>,
    extra: serde_json::Map<String, serde_json::Value>,
}

impl<'a> View for FineTuningJobRequestBuilder<'a> {
    type V = FineTuningJobModel;

    closed spec fn view(&self) -> FineTuningJobModel {
        FineTuningJobModel {
            client: *self.client,
            model: opt_view(self.model),
            training_file: opt_view(self.training_file),
            validation_file: opt_view(self.validation_file),
            suffix: opt_view(self.suffix),
            hyperparameters: self.hyperparameters,
            extra: json_map_entries(self.extra),
        }
    }
}

impl<'a> FineTuningJobRequestBuilder<'a> {
    /// An empty request for `client`.
    pub fn new(client: &'a ApiClient) -> (r: FineTuningJobRequestBuilder<'a>)
        ensures
            r@ == (FineTuningJobModel {
                client: *client,
                model: None,
                training_file: None,
                validation_file: None,
                suffix: None,
                hyperparameters: None,
                extra: Map::empty(),
            }),
    {
        FineTuningJobRequestBuilder {
            client,
            model: None,
            training_file: None,
            validation_file: None,
            suffix: None,
            hyperparameters: None,
            extra: json_map_new(),
        }
    }

    /// The client that sends the request.
    pub fn client(&self) -> (r: &'a ApiClient)
        ensures
            *r == self@.client,
    {
        self.client
    }

    /// Sets the base model.
    pub fn model(self, model: &str) -> (r: FineTuningJobRequestBuilder<'a>)
        ensures
            r@ == (FineTuningJobModel { model: Some(model@), ..self@ }),
    {
        FineTuningJobRequestBuilder { model: Some(model.to_owned()), ..self }
    }

    /// Sets the training file.
    pub fn training_file(self, training_file: &str) -> (r: FineTuningJobRequestBuilder<'a>)
        ensures
            r@ == (FineTuningJobModel { training_file: Some(training_file@), ..self@ }),
    {
        FineTuningJobRequestBuilder { training_file: Some(training_file.to_owned()), ..self }
    }

    /// Sets the validation file.
    pub fn validation_file(self, validation_file: &str) -> (r: FineTuningJobRequestBuilder<'a>)
        ensures
            r@ == (FineTuningJobModel { validation_file: Some(validation_file@), ..self@ }),
    {
        FineTuningJobRequestBuilder { validation_file: Some(validation_file.to_owned()), ..self }
    }

    /// Sets the suffix of the fine-tuned model's name.
    pub fn suffix(self, suffix: &str) -> (r: FineTuningJobRequestBuilder<'a>)
        ensures
            r@ == (FineTuningJobModel { suffix: Some(suffix@), ..self@ }),
    {
        FineTuningJobRequestBuilder { suffix: Some(suffix.to_owned()), ..self }
    }

    /// Sets the hyperparameters.
    pub fn hyperparameters(self, hyperparameters: serde_json::Value) -> (r:
        FineTuningJobRequestBuilder<'a>)
        ensures
            r@ == (FineTuningJobModel { hyperparameters: Some(hyperparameters), ..self@ }),
    {
        FineTuningJobRequestBuilder { hyperparameters: Some(hyperparameters), ..self }
    }

    /// Sets a provider-specific field of the request.
    pub fn extra(self, key: &str, value: serde_json::Value) -> (r: FineTuningJobRequestBuilder<'a>)
        ensures
            r@ == (FineTuningJobModel { extra: self@.extra.insert(key@, value), ..self@ }),
    {
        let mut extra = self.extra;
        json_map_insert(&mut extra, key.to_owned(), value);
        FineTuningJobRequestBuilder { extra, ..self }
    }

    /// The request; refused when the model or the training file is missing.
    pub fn build(self) -> (r: Result<FineTuningJobRequest>)
        ensures
            (self@.model is Some && self@.training_file is Some) <==> r is Ok,
            r is Err ==> r matches Err(ClientError::InvalidConfig(_)),
            r matches Ok(req) ==> {
                &&& Some(req.model@) == self@.model
                &&& Some(req.training_file@) == self@.training_file
                &&& opt_view(req.validation_file) == self@.validation_file
                &&& opt_view(req.suffix) == self@.suffix
                &&& req.hyperparameters == self@.hyperparameters
                &&& json_map_entries(req.extra) == self@.extra
            },
    {
        let model = match self.model {
            Some(m) => m,
            None => {
                return Err(ClientError::InvalidConfig("fine-tuning model is required".to_owned()));
            },
        };
        let training_file = match self.training_file {
            Some(f) => f,
            None => {
                return Err(
                    ClientError::InvalidConfig("fine-tuning training file is required".to_owned()),
                );
            },
        };
        Ok(FineTuningJobRequest {
            model,
            training_file,
            validation_file: self.validation_file,
            suffix: self.suffix,
            hyperparameters: self.hyperparameters,
            extra: self.extra,
        })
    }
}

} // verus!
