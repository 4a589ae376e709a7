//! The client: a configuration and an HTTP client, the entry point of every
//! request builder, and the decisions of its retry loop.

use vstd::prelude::*;

use crate::config::{
    headers_valid, normalize_base_url, provider_base_url, Config, Provider, RetryConfig, MAX_DURATION_NANOS,
    NANOS_PER_SEC,
};
use crate::error::{ClientError, Result};
use crate::retry::{is_success_status, is_retryable_status, retry_after_delay, retry_after_spec, http_date_unix_secs, retry_delay_spec};
use crate::text::{is_blank, is_blank_str, opt_view, parse_u64_spec, trim};

verus! {

/// `reqwest::Client`: a pooled HTTP client.
#[verifier::external_type_specification]
#[verifier::external_body]
pub struct ExHttpClient(reqwest::Client);

/// The request timeout of an HTTP client, in nanoseconds, if it has one.
pub uninterp spec fn http_client_timeout(c: reqwest::Client) -> Option<u128>;

/// `reqwest::Client::builder().timeout(Duration::new(secs, nanos)).build()`.
/// Claimed: a client that it builds has that request timeout. Whether the
/// build succeeds is not claimed: it depends on the machine (TLS backend,
/// resolver configuration).
#[verifier::external_body]
fn build_http_client_with_timeout(secs: u64, nanos: u32) -> (r: core::result::Result<
    reqwest::Client,
    reqwest::Error,
>)
    requires
        nanos < 1_000_000_000,
    ensures
        r matches Ok(c) ==> http_client_timeout(c) == Some(
            ((secs as u128) * 1_000_000_000 + (nanos as u128)) as u128,
        ),
{
    reqwest::Client::builder().timeout(std::time::Duration::new(secs, nanos)).build()
}

/// `reqwest::Client::builder().build()`. Claimed: a client that it builds has
/// no request timeout. Whether the build succeeds is not claimed: it depends
/// on the machine (TLS backend, resolver configuration).
#[verifier::external_body]
fn build_http_client() -> (r: core::result::Result<reqwest::Client, reqwest::Error>)
    ensures
        r matches Ok(c) ==> http_client_timeout(c) == None::<u128>,
{
    reqwest::Client::builder().build()
}

/// `<reqwest::Client as Clone>::clone`: another handle on the same pool of
/// connections. Nothing is claimed of it: the handle is opaque.
#[verifier::external_body]
fn clone_http_client(http: &reqwest::Client) -> reqwest::Client {
    http.clone()
}

/// A client of an OpenAI-compatible API.
pub struct ApiClient {
    config: Config,
    http: reqwest::Client,
}

impl Clone for ApiClient {
    /// A client with the same configuration that shares the HTTP client.
    fn clone(&self) -> (r: ApiClient)
        ensures
            r.spec_config()@ == self.spec_config()@,
    {
        ApiClient { config: self.config.clone(), http: clone_http_client(&self.http) }
    }
}

/// What one attempt to send a request came to, as the retry loop sees it.
pub enum AttemptOutcome {
    /// The provider answered with `status`; `retry_after` is the value of its
    /// `Retry-After` header, if it had a readable one.
    Answered { status: u16, retry_after: Option<String> },
    /// The transport failed; `timeout_or_connect` says whether it timed out
    /// or could not connect.
    TransportFailed { timeout_or_connect: bool },
}

/// What the retry loop does next.
#[derive(Debug, Clone, Copy, PartialEq, Eq)]
pub enum RetryStep {
    /// Hand the answer of the provider to the caller.
    Deliver,
    /// Wait `delay` nanoseconds, then send again as retry number `attempt`.
    Retry { attempt: usize, delay: u128 },
    /// Give up with the transport error.
    Fail,
}

/// The wait that a `Retry-After` header asks for, when the policy respects
/// it, at time `now`.
pub open spec fn header_wait_spec(retry: RetryConfig, header: Option<Seq<char>>, now: u128) -> Option<u128> {
    if retry.respect_retry_after {
        match header {
            Some(v) => retry_after_spec(v, http_date_unix_secs(trim(v)), now),
            None => None,
        }
    } else {
        None
    }
}

/// Whether `step` is what the retry policy `retry` decides after `attempt`
/// retries ended in `outcome`, for some reading of the clock.
pub open spec fn retry_step_spec(retry: RetryConfig, attempt: usize, outcome: AttemptOutcome, step: RetryStep) -> bool {
    match outcome {
        AttemptOutcome::Answered { status, retry_after } => {
            if is_success_status(status) || !(attempt < retry.max_retries && is_retryable_status(status)) {
                step == RetryStep::Deliver
            } else {
                step matches RetryStep::Retry { attempt: next, delay }
                    && next == attempt + 1
                    && exists|n: u32, now: u128| n < 1_000_000_000 && delay == #[trigger] retry_delay_spec(
                        retry,
                        next,
                        header_wait_spec(
                            retry,
                            opt_view(retry_after),
                            now,
                        ),
                        n,
                    )
            }
        },
        AttemptOutcome::TransportFailed { timeout_or_connect } => {
            if attempt < retry.max_retries && timeout_or_connect {
                step matches RetryStep::Retry { attempt: next, delay }
                    && next == attempt + 1
                    && exists|n: u32| n < 1_000_000_000 && delay == retry_delay_spec(retry, next, None, n)
            } else {
                step == RetryStep::Fail
            }
        },
    }
}

impl ApiClient {
    /// The configuration of the client.
    pub closed spec fn spec_config(&self) -> Config {
        self.config
    }

    /// The HTTP client that the client sends through.
    pub closed spec fn spec_http(&self) -> reqwest::Client {
        self.http
    }

    /// A client for `config`, with an HTTP client that applies its timeout;
    /// refused when the API key is blank or a header is not valid.
    pub fn new(config: Config) -> (r: Result<ApiClient>)
        ensures
            (is_blank(config@.api_key) || !headers_valid(config@)) <==> r matches Err(
                ClientError::InvalidConfig(_),
            ),
            r matches Ok(c) ==> c.spec_config() == config,
            r matches Ok(c) ==> http_client_timeout(c.spec_http()) == config@.timeout,
            r is Ok || r matches Err(ClientError::InvalidConfig(_)) || r matches Err(ClientError::Http(_)),
    {
        if is_blank_str(config.api_key()) {
            return Err(ClientError::InvalidConfig("API key cannot be empty".to_owned()));
        }
        config.check_headers()?;
        let built = match config.timeout() {
            Some(t) => {
                let secs = t / NANOS_PER_SEC;
                let nanos = t % NANOS_PER_SEC;
                assert(secs <= u64::MAX && secs * 1_000_000_000 + nanos == t) by (nonlinear_arith)
                    requires
                        t <= MAX_DURATION_NANOS,
                        secs == t / NANOS_PER_SEC,
                        nanos == t % NANOS_PER_SEC,
                        NANOS_PER_SEC == 1_000_000_000,
                ;
                build_http_client_with_timeout(secs as u64, nanos as u32)
            },
            None => build_http_client(),
        };
        match built {
            Ok(http) => Ok(ApiClient { config, http }),
            Err(e) => Err(ClientError::Http(e)),
        }
    }

    /// A client for `config` that sends through `http`; refused when the API
    /// key is blank or a header is not valid.
    pub fn with_http_client(config: Config, http: reqwest::Client) -> (r: Result<ApiClient>)
        ensures
            (is_blank(config@.api_key) || !headers_valid(config@)) <==> r matches Err(
                ClientError::InvalidConfig(_),
            ),
            r matches Ok(c) ==> c.spec_config() == config && c.spec_http() == http,
            r is Ok || r matches Err(ClientError::InvalidConfig(_)),
    {
        if is_blank_str(config.api_key()) {
            return Err(ClientError::InvalidConfig("API key cannot be empty".to_owned()));
        }
        config.check_headers()?;
        Ok(ApiClient { config, http })
    }

    /// A client for `api_key` against the OpenAI API.
    pub fn openai(api_key: &str) -> (r: Result<ApiClient>)
        ensures
            is_blank(api_key@) <==> r matches Err(ClientError::InvalidConfig(_)),
            r matches Ok(c) ==> c.spec_config()@.api_key == api_key@ && c.spec_config()@.base_url
                == normalize_base_url(provider_base_url(Provider::OpenAI)),
            r is Ok || r matches Err(ClientError::InvalidConfig(_)) || r matches Err(ClientError::Http(_)),
    {
        ApiClient::new(Config::for_provider(api_key, Provider::OpenAI))
    }

    /// A client for `api_key` against any OpenAI-compatible API at `base_url`.
    pub fn compatible(api_key: &str, base_url: &str) -> (r: Result<ApiClient>)
        ensures
            is_blank(api_key@) <==> r matches Err(ClientError::InvalidConfig(_)),
            r matches Ok(c) ==> c.spec_config()@.api_key == api_key@ && c.spec_config()@.base_url
                == normalize_base_url(base_url@),
            r is Ok || r matches Err(ClientError::InvalidConfig(_)) || r matches Err(ClientError::Http(_)),
    {
        let provider = Provider::Custom(base_url.to_owned());
        ApiClient::new(Config::for_provider(api_key, provider))
    }

    /// A client for `api_key` against the API of `provider`.
    pub fn for_provider(api_key: &str, provider: Provider) -> (r: Result<ApiClient>)
        ensures
            is_blank(api_key@) <==> r matches Err(ClientError::InvalidConfig(_)),
            r matches Ok(c) ==> c.spec_config()@.api_key == api_key@ && c.spec_config()@.base_url
                == normalize_base_url(provider_base_url(provider)),
            r is Ok || r matches Err(ClientError::InvalidConfig(_)) || r matches Err(ClientError::Http(_)),
    {
        ApiClient::new(Config::for_provider(api_key, provider))
    }

    /// The configuration of the client.
    pub fn config(&self) -> (r: &Config)
        ensures
            *r == self.spec_config(),
    {
        &self.config
    }

    /// A chat request.
    pub fn chat(&self) -> (r: crate::chat::ChatRequestBuilder<'_>)
        ensures
            r@ == (crate::chat::ChatRequestModel {
                client: *self,
                model: None,
                messages: seq![],
                temperature: None,
                max_tokens: None,
                stream: None,
                tools: None,
                tool_choice: None,
                response_format: None,
                extra: Map::empty(),
            }),
    {
        crate::chat::ChatRequestBuilder::new(self)
    }

    /// A prompt-first request for `prompt`.
    pub fn prompt(&self, prompt: &str) -> (r: crate::prompt::PromptBuilder<'_>)
        ensures
            r@ == (crate::prompt::PromptModel {
                client: *self,
                model: None,
                system: None,
                prompt: prompt@,
                temperature: None,
                max_tokens: None,
                tools: seq![],
                json_object: false,
                json_schema: None,
            }),
    {
        crate::prompt::PromptBuilder::new(self, prompt)
    }

    /// A chat request with the default model; refused when there is none.
    pub fn chat_default(&self) -> (r: Result<crate::chat::ChatRequestBuilder<'_>>)
        ensures
            self.spec_config()@.default_model is None <==> r is Err,
            r is Err ==> r matches Err(ClientError::InvalidConfig(_)),
            r matches Ok(chat) ==> chat@ == (crate::chat::ChatRequestModel {
                client: *self,
                model: self.spec_config()@.default_model,
                messages: seq![],
                temperature: None,
                max_tokens: None,
                stream: None,
                tools: None,
                tool_choice: None,
                response_format: None,
                extra: Map::empty(),
            }),
    {
        match self.config.default_model() {
            Some(model) => Ok(self.chat().model(model)),
            None => Err(ClientError::InvalidConfig("default model is not configured".to_owned())),
        }
    }

    /// A legacy completion request.
    pub fn completions(&self) -> (r: crate::completions::CompletionRequestBuilder<'_>)
        ensures
            r@ == (crate::completions::CompletionModel {
                client: *self,
                model: None,
                prompt: None,
                temperature: None,
                max_tokens: None,
                extra: Map::empty(),
            }),
    {
        crate::completions::CompletionRequestBuilder::new(self)
    }

    /// An embeddings request.
    pub fn embeddings(&self) -> (r: crate::embeddings::EmbeddingsRequestBuilder<'_>)
        ensures
            r@ == (crate::embeddings::EmbeddingsModel {
                client: *self,
                model: None,
                input: None,
                dimensions: None,
                encoding_format: None,
                extra: Map::empty(),
            }),
    {
        crate::embeddings::EmbeddingsRequestBuilder::new(self)
    }

    /// An image generation request.
    pub fn images(&self) -> (r: crate::images::ImagesRequestBuilder<'_>)
        ensures
            r@ == (crate::images::ImagesModel {
                client: *self,
                model: None,
                prompt: None,
                n: None,
                size: None,
                response_format: None,
                extra: Map::empty(),
            }),
    {
        crate::images::ImagesRequestBuilder::new(self)
    }

    /// A moderation request.
    pub fn moderations(&self) -> (r: crate::moderations::ModerationRequestBuilder<'_>)
        ensures
            r@ == (crate::moderations::ModerationModel {
                client: *self,
                input: None,
                model: None,
                extra: Map::empty(),
            }),
    {
        crate::moderations::ModerationRequestBuilder::new(self)
    }

    /// A response request.
    pub fn responses(&self) -> (r: crate::responses::ResponseRequestBuilder<'_>)
        ensures
            r@ == (crate::responses::ResponsesModel {
                client: *self,
                model: None,
                input: None,
                instructions: None,
                temperature: None,
                max_output_tokens: None,
                tools: None,
                text: None,
                extra: Map::empty(),
            }),
    {
        crate::responses::ResponseRequestBuilder::new(self)
    }

    /// A response request with the text input `input`.
    pub fn respond(&self, input: &str) -> (r: crate::responses::ResponseRequestBuilder<'_>)
        ensures
            r@.input matches Some(crate::responses::ResponseInput::Text(t)) && t@ == input@,
            r@ == (crate::responses::ResponsesModel {
                client: *self,
                model: None,
                input: r@.input,
                instructions: None,
                temperature: None,
                max_output_tokens: None,
                tools: None,
                text: None,
                extra: Map::empty(),
            }),
    {
        self.responses().input(input)
    }

    /// The model endpoints.
    pub fn models(&self) -> (r: crate::models::Models<'_>)
        ensures
            r.spec_client() == *self,
    {
        crate::models::Models::new(self)
    }

    /// The file endpoints.
    pub fn files(&self) -> (r: crate::files::Files<'_>)
        ensures
            r.spec_client() == *self,
    {
        crate::files::Files::new(self)
    }

    /// A file upload with `purpose`.
    pub fn upload_file(&self, purpose: &str) -> (r: crate::files::FileUploadBuilder<'_>)
        ensures
            r@ == (crate::files::FileUploadModel {
                client: *self,
                purpose: purpose@,
                filename: None,
                bytes: None,
                extra: seq![],
            }),
    {
        crate::files::FileUploadBuilder::new(self, purpose)
    }

    /// The audio endpoints.
    pub fn audio(&self) -> (r: crate::audio::Audio<'_>)
        ensures
            r.spec_client() == *self,
    {
        crate::audio::Audio::new(self)
    }

    /// The fine-tuning endpoints.
    pub fn fine_tuning(&self) -> (r: crate::fine_tuning::FineTuning<'_>)
        ensures
            r.spec_client() == *self,
    {
        crate::fine_tuning::FineTuning::new(self)
    }

    /// An empty registry of agents, whose default model is the client's.
    pub fn agents(&self) -> (r: crate::agents::Agents<'_>)
        ensures
            r@.client == *self,
            r@.default_model == self.spec_config()@.default_model,
            r@.specs == Map::<Seq<char>, crate::agents::AgentSpec>::empty(),
    {
        crate::agents::Agents::new(self)
    }

    /// An agent named `name`, with nothing else set.
    pub fn agent(&self, name: &str) -> (r: crate::agents::AgentSpec)
        ensures
            r.name@ == name@,
            r.model.is_none(),
            r.instructions.is_none(),
            r.temperature.is_none(),
            r.max_tokens.is_none(),
            r.tools@ == Seq::<crate::chat::Tool>::empty(),
    {
        crate::agents::AgentSpec::new(name)
    }

    /// The HTTP client that requests go through: the one that the client
    /// was made with.
    pub fn http(&self) -> (r: &reqwest::Client)
        ensures
            *r == self.spec_http(),
    {
        &self.http
    }

    /// The model that requests use when they name none.
    pub fn default_model(&self) -> (r: Option<&str>)
        ensures
            match r {
                Some(m) => self.spec_config()@.default_model == Some(m@),
                None => self.spec_config()@.default_model.is_none(),
            },
    {
        self.config.default_model()
    }

    /// What the retry loop does after `attempt` retries ended in `outcome`:
    /// deliver a success or an answer that is not retried, wait and send
    /// again while retries are left for a retryable status or a timeout or
    /// connection failure, or give up on any other transport failure.
    pub fn retry_step(&self, attempt: usize, outcome: AttemptOutcome) -> (r: RetryStep)
        ensures
            retry_step_spec(self.spec_config()@.retry, attempt, outcome, r),
            r matches RetryStep::Retry { attempt: next, delay } ==> next == attempt + 1 && next
                <= self.spec_config()@.retry.max_retries && delay <= self.spec_config()@.retry.max_backoff,
    {
        let retry = self.config.retry_config();
        match outcome {
            AttemptOutcome::Answered { status, retry_after } => {
                if 200 <= status && status <= 299 {
                    assert(retry_step_spec(*retry, attempt, outcome, RetryStep::Deliver));
                    return RetryStep::Deliver;
                }
                if !retry.should_retry(status, attempt) {
                    assert(retry_step_spec(*retry, attempt, outcome, RetryStep::Deliver));
                    return RetryStep::Deliver;
                }
                let next = attempt + 1;
                let wait = if retry.respect_retry_after {
                    match &retry_after {
                        Some(v) => retry_after_delay(v.as_str()),
                        None => None,
                    }
                } else {
                    None
                };
                let ghost now = if retry.respect_retry_after && retry_after is Some {
                    choose|now: u128| wait == retry_after_spec(retry_after->0@, http_date_unix_secs(trim(retry_after->0@)), now)
                } else {
                    0
                };
                assert(wait == header_wait_spec(*retry, opt_view(retry_after), now));
                let delay = retry.retry_delay(next, wait);
                proof {
                    let n = choose|n: u32| n < 1_000_000_000 && delay == retry_delay_spec(*retry, next, wait, n);
                    crate::retry::lemma_retry_delay_bounded(*retry, next, wait, n);
                    assert(retry_after == outcome->retry_after);
                    assert(n < 1_000_000_000 && delay == retry_delay_spec(
                        *retry,
                        next,
                        header_wait_spec(*retry, opt_view(outcome->retry_after), now),
                        n,
                    ));
                }
                assert(retry_step_spec(*retry, attempt, outcome, RetryStep::Retry { attempt: next, delay }));
                RetryStep::Retry { attempt: next, delay }
            },
            AttemptOutcome::TransportFailed { timeout_or_connect } => {
                if retry.should_retry_error(timeout_or_connect, attempt) {
                    let next = attempt + 1;
                    let delay = retry.retry_delay(next, None);
                    proof {
                        let n = choose|n: u32| n < 1_000_000_000 && delay == retry_delay_spec(*retry, next, None, n);
                        crate::retry::lemma_retry_delay_bounded(*retry, next, None, n);
                    }
                    RetryStep::Retry { attempt: next, delay }
                } else {
                    RetryStep::Fail
                }
            },
        }
    }
}

/// A rate-limited answer (`429`) whose `Retry-After` header gives a number
/// of seconds is retried after exactly that wait, when the policy respects
/// the header, retries are left and the wait is within the largest backoff;
/// neither the clock nor jitter changes it.
pub proof fn lemma_rate_limit_waits_retry_after(
    retry: RetryConfig,
    attempt: usize,
    outcome: AttemptOutcome,
    secs: u64,
    step: RetryStep,
)
    requires
        retry.wf(),
        retry.respect_retry_after,
        attempt < retry.max_retries,
        outcome matches AttemptOutcome::Answered { status, retry_after: Some(v) } && status == 429
            && parse_u64_spec(trim(v@)) == Some(secs),
        secs * NANOS_PER_SEC <= retry.max_backoff,
        retry_step_spec(retry, attempt, outcome, step),
    ensures
        step == (RetryStep::Retry { attempt: (attempt + 1) as usize, delay: (secs * NANOS_PER_SEC) as u128 }),
{
}

/// Whether `steps` is a run of the retry loop on `outcomes`: the step after
/// the `k`-th attempt is what the policy decides after `k` retries, and every
/// step but the last sends again.
pub open spec fn is_retry_run(retry: RetryConfig, outcomes: Seq<AttemptOutcome>, steps: Seq<RetryStep>) -> bool {
    &&& outcomes.len() == steps.len()
    &&& forall|k: int|
        0 <= k < steps.len() ==> retry_step_spec(retry, k as usize, #[trigger] outcomes[k], steps[k])
    &&& forall|k: int| 0 <= k < steps.len() - 1 ==> #[trigger] steps[k] is Retry
}

/// The retry loop sends a request at most `max_retries + 1` times, whatever
/// the provider answers and however the transport fails.
pub proof fn lemma_retries_are_bounded(retry: RetryConfig, outcomes: Seq<AttemptOutcome>, steps: Seq<RetryStep>)
    requires
        is_retry_run(retry, outcomes, steps),
    ensures
        steps.len() <= retry.max_retries + 1,
{
    if steps.len() > retry.max_retries + 1 {
        let k = retry.max_retries as int;
        assert(retry_step_spec(retry, k as usize, outcomes[k], steps[k]));
        assert(steps[k] is Retry);
    }
}

} // verus!
