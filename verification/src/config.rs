//! Client configuration: the API key, the base URL of an OpenAI-compatible
//! provider, the request timeout, the retry policy and the default model.
//!
//! Spans of time are counted in nanoseconds, as `u128`; a span never exceeds
//! `MAX_DURATION_NANOS`, the largest span that `std::time::Duration` holds.

use vstd::prelude::*;

use crate::error::{ClientError, Result};
use crate::text::{
    chars_of, concat_chars, concat_str, opt_view, pairs_view, string_of, trim, trim_chars,
    trim_end_char, trim_end_matches_char, trim_start_char, trim_start_matches_char,
};

verus! {

/// The largest span of time, in nanoseconds, that a `std::time::Duration`
/// can hold: `u64::MAX` seconds and 999 999 999 nanoseconds.
pub const MAX_DURATION_NANOS: u128 = 18_446_744_073_709_551_615_999_999_999u128;

/// Nanoseconds in one second.
pub const NANOS_PER_SEC: u128 = 1_000_000_000u128;

/// The base URL of the OpenAI API, which a new configuration starts from.
pub open spec fn default_base_url() -> Seq<char> {
    "https://api.openai.com/v1"@
}

/// The request timeout of a new configuration: sixty seconds.
pub open spec fn default_timeout() -> u128 {
    60_000_000_000
}

/// Known OpenAI-compatible providers, and any other one by its base URL.
#[derive(Debug, Clone, PartialEq, Eq)]
pub enum Provider {
    OpenAI,
    OpenRouter,
    Groq,
    Together,
    Ollama,
    Custom(String),
}

/// The base URL of each provider.
pub open spec fn provider_base_url(p: Provider) -> Seq<char> {
    match p {
        Provider::OpenAI => "https://api.openai.com/v1"@,
        Provider::OpenRouter => "https://openrouter.ai/api/v1"@,
        Provider::Groq => "https://api.groq.com/openai/v1"@,
        Provider::Together => "https://api.together.xyz/v1"@,
        Provider::Ollama => "http://localhost:11434/v1"@,
        Provider::Custom(base_url) => base_url@,
    }
}

impl Provider {
    /// The base URL of the provider's OpenAI-compatible API.
    pub fn base_url(&self) -> (r: &str)
        ensures
            r@ == provider_base_url(*self),
    {
        match self {
            Provider::OpenAI => "https://api.openai.com/v1",
            Provider::OpenRouter => "https://openrouter.ai/api/v1",
            Provider::Groq => "https://api.groq.com/openai/v1",
            Provider::Together => "https://api.together.xyz/v1",
            Provider::Ollama => "http://localhost:11434/v1",
            Provider::Custom(base_url) => base_url.as_str(),
        }
    }
}

/// When and how often a failed request is sent again.
///
/// `initial_backoff` and `max_backoff` are spans in nanoseconds.
#[derive(Debug, Clone, Copy, PartialEq, Eq)]
pub struct RetryConfig {
    /// How many times a request may be sent again after its first attempt.
    pub max_retries: usize,
    /// The wait before the first retry; it doubles with each further retry.
    pub initial_backoff: u128,
    /// The longest wait between two attempts.
    pub max_backoff: u128,
    /// Whether a small pseudo-random extra wait is added to each backoff.
    pub jitter: bool,
    /// Whether a `Retry-After` header of the provider sets the wait.
    pub respect_retry_after: bool,
}

impl RetryConfig {
    /// Both spans fit in a `std::time::Duration`.
    pub open spec fn wf(&self) -> bool {
        self.initial_backoff <= MAX_DURATION_NANOS && self.max_backoff <= MAX_DURATION_NANOS
    }

    /// The policy of a new configuration.
    pub open spec fn spec_default() -> RetryConfig {
        RetryConfig {
            max_retries: 2,
            initial_backoff: 250_000_000,
            max_backoff: 20_000_000_000,
            jitter: true,
            respect_retry_after: true,
        }
    }
}

impl Default for RetryConfig {
    /// Two retries, a quarter second doubling up to twenty seconds, with
    /// jitter, and `Retry-After` respected.
    fn default() -> (r: RetryConfig)
        ensures
            r == RetryConfig::spec_default(),
    {
        RetryConfig {
            max_retries: 2,
            initial_backoff: 250_000_000,
            max_backoff: 20_000_000_000,
            jitter: true,
            respect_retry_after: true,
        }
    }
}

/// What a configuration holds, as plain values.
pub struct ConfigModel {
    pub api_key: Seq<char>,
    pub base_url: Seq<char>,
    pub timeout: Option<u128>,
    pub retry: RetryConfig,
    pub default_model: Option<Seq<char>>,
    pub user_agent: Option<Seq<char>>,
    pub organization: Option<Seq<char>>,
    pub project: Option<Seq<char>>,
    pub headers: Seq<(Seq<char>, Seq<char>)>,
}

/// How a base URL is stored: without surrounding whitespace and without
/// trailing slashes.
pub open spec fn normalize_base_url(s: Seq<char>) -> Seq<char> {
    trim_end_char(trim(s), '/')
}

/// The URL of `path` under `base_url`: the two joined by one slash.
pub open spec fn join_endpoint(base_url: Seq<char>, path: Seq<char>) -> Seq<char> {
    base_url + seq!['/'] + trim_start_char(path, '/')
}

/// Whether `c` may stand in an HTTP header name (a `tchar` of RFC 9110).
pub open spec fn is_token_char(c: char) -> bool {
    ||| ('a' <= c && c <= 'z')
    ||| ('A' <= c && c <= 'Z')
    ||| ('0' <= c && c <= '9')
    ||| c == '!' || c == '#' || c == '$' || c == '%' || c == '&' || c == '\''
    ||| c == '*' || c == '+' || c == '-' || c == '.' || c == '^' || c == '_'
    ||| c == '`' || c == '|' || c == '~'
}

/// Whether `name` is an HTTP header name: one to 65535 token characters.
pub open spec fn valid_header_name(name: Seq<char>) -> bool {
    &&& 1 <= name.len() <= 65535
    &&& forall|i: int| 0 <= i < name.len() ==> is_token_char(#[trigger] name[i])
}

/// Whether `value` is an HTTP header value: no control character but tab,
/// and no DEL.
pub open spec fn valid_header_value(value: Seq<char>) -> bool {
    forall|i: int|
        0 <= i < value.len() ==> (#[trigger] value[i] == '\t' || (value[i] as int >= 32
            && value[i] as int != 127))
}

/// Whether an optional header value is absent or valid.
pub open spec fn valid_optional_value(value: Option<Seq<char>>) -> bool {
    value matches Some(v) ==> valid_header_value(v)
}

/// Whether every header that a configuration sends is valid: the user agent,
/// organization and project values, and each extra header's name and value.
pub open spec fn headers_valid(m: ConfigModel) -> bool {
    &&& valid_optional_value(m.user_agent)
    &&& valid_optional_value(m.organization)
    &&& valid_optional_value(m.project)
    &&& forall|i: int| 0 <= i < m.headers.len() ==> #[trigger] valid_header(m.headers[i])
}

/// Whether a header's name and value are valid.
pub open spec fn valid_header(h: (Seq<char>, Seq<char>)) -> bool {
    valid_header_name(h.0) && valid_header_value(h.1)
}

/// `reqwest::header::HeaderName::from_bytes` on the bytes of `name`, which
/// accepts one to 65535 bytes that are all token characters.
#[verifier::external_body]
fn header_name_accepted(name: &str) -> (r: bool)
    ensures
        r == valid_header_name(name@),
{
    reqwest::header::HeaderName::from_bytes(name.as_bytes()).is_ok()
}

/// `reqwest::header::HeaderValue::from_str`, which accepts the bytes from 32
/// up, but DEL (127), and tab; every byte of a character beyond ASCII is
/// above 127.
#[verifier::external_body]
fn header_value_accepted(value: &str) -> (r: bool)
    ensures
        r == valid_header_value(value@),
{
    reqwest::header::HeaderValue::from_str(value).is_ok()
}

/// Whether an optional header value is absent or accepted.
fn optional_value_accepted(value: &Option<String>) -> (r: bool)
    ensures
        r == valid_optional_value(opt_view(*value)),
{
    match value {
        Some(v) => header_value_accepted(v.as_str()),
        None => true,
    }
}

/// `s` between double quotes.
pub open spec fn quoted(s: Seq<char>) -> Seq<char> {
    "\""@ + s + "\""@
}

/// An optional text as `Some("..")` or `None`.
pub open spec fn optional_text(o: Option<Seq<char>>) -> Seq<char> {
    match o {
        Some(s) => "Some("@ + quoted(s) + ")"@,
        None => "None"@,
    }
}

/// The extra headers, each as `("name", "<redacted>")`, separated by `, `:
/// the names are shown and the values hidden.
pub open spec fn redacted_headers(h: Seq<(Seq<char>, Seq<char>)>) -> Seq<char>
    decreases h.len(),
{
    if h.len() == 0 {
        seq![]
    } else {
        let item = "("@ + quoted(h.last().0) + ", \"<redacted>\")"@;
        if h.len() == 1 {
            item
        } else {
            redacted_headers(h.drop_last()) + ", "@ + item
        }
    }
}

/// The description of a configuration that is safe to log: the API key and
/// the values of the extra headers are replaced by `<redacted>`.
pub open spec fn config_description(m: ConfigModel) -> Seq<char> {
    "Config { api_key: \"<redacted>\", base_url: "@ + quoted(m.base_url) + ", default_model: "@
        + optional_text(m.default_model) + ", user_agent: "@ + optional_text(m.user_agent)
        + ", organization: "@ + optional_text(m.organization) + ", project: "@ + optional_text(
        m.project,
    ) + ", headers: ["@ + redacted_headers(m.headers) + "] }"@
}

/// `s` between double quotes.
fn quote(s: &str) -> (r: String)
    ensures
        r@ == quoted(s@),
{
    let open = concat_str("\"", s);
    concat_str(open.as_str(), "\"")
}

/// An optional text as `Some("..")` or `None`.
fn optional_text_of(o: &Option<String>) -> (r: String)
    ensures
        r@ == optional_text(opt_view(*o)),
{
    match o {
        Some(s) => {
            let q = quote(s.as_str());
            let a = concat_str("Some(", q.as_str());
            concat_str(a.as_str(), ")")
        },
        None => "None".to_owned(),
    }
}

/// The header `name` with `value`, when there is a value.
pub open spec fn optional_header(name: Seq<char>, value: Option<Seq<char>>) -> Seq<(Seq<char>, Seq<char>)> {
    match value {
        Some(v) => seq![(name, v)],
        None => seq![],
    }
}

/// The headers that every request of a configuration carries, besides the
/// authorisation: `user-agent`, `openai-organization` and `openai-project`
/// when they are set, then the extra headers in the order they were added.
pub open spec fn request_headers_spec(m: ConfigModel) -> Seq<(Seq<char>, Seq<char>)> {
    optional_header("user-agent"@, m.user_agent) + optional_header("openai-organization"@, m.organization)
        + optional_header("openai-project"@, m.project) + m.headers
}

/// Appends the header `name` with `value`, when there is a value.
fn push_optional_header(headers: &mut Vec<(String, String)>, name: &str, value: &Option<String>)
    ensures
        pairs_view(final(headers)@) == pairs_view(old(headers)@) + optional_header(name@, opt_view(*value)),
{
    match value {
        Some(v) => {
            let ghost before = headers@;
            headers.push((name.to_owned(), v.clone()));
            assert(pairs_view(headers@) =~= pairs_view(before) + seq![(name@, v@)]);
        },
        None => {
            assert(pairs_view(headers@) =~= pairs_view(headers@) + optional_header(name@, None));
        },
    }
}

/// The configuration of a client.
pub struct Config {
    api_key: String,
    base_url: String,
    timeout: Option<u128>,
    retry: RetryConfig,
    default_model: Option<String>,
    user_agent: Option<String>,
    organization: Option<String>,
    project: Option<String>,
    headers: Vec<(String, String)>,
}

impl View for Config {
    type V = ConfigModel;

    closed spec fn view(&self) -> ConfigModel {
        ConfigModel {
            api_key: self.api_key@,
            base_url: self.base_url@,
            timeout: self.timeout,
            retry: self.retry,
            default_model: opt_view(self.default_model),
            user_agent: opt_view(self.user_agent),
            organization: opt_view(self.organization),
            project: opt_view(self.project),
            headers: pairs_view(self.headers@),
        }
    }
}

/// A copy of an optional text.
fn clone_opt(o: &Option<String>) -> (r: Option<String>)
    ensures
        opt_view(r) == opt_view(*o),
{
    match o {
        Some(s) => Some(s.clone()),
        None => None,
    }
}

/// A copy of a list of text pairs.
fn clone_pairs(v: &Vec<(String, String)>) -> (r: Vec<(String, String)>)
    ensures
        pairs_view(r@) == pairs_view(v@),
{
    let mut out: Vec<(String, String)> = Vec::new();
    let mut i: usize = 0;
    while i < v.len()
        invariant
            i <= v@.len(),
            pairs_view(out@) == pairs_view(v@).take(i as int),
        decreases v@.len() - i,
    {
        let pair = (v[i].0.clone(), v[i].1.clone());
        let ghost prev = out@;
        out.push(pair);
        assert(pairs_view(out@) =~= pairs_view(prev).push((v@[i as int].0@, v@[i as int].1@)));
        assert(pairs_view(v@).take(i + 1) =~= pairs_view(v@).take(i as int).push(
            (v@[i as int].0@, v@[i as int].1@),
        ));
        i = i + 1;
    }
    assert(pairs_view(v@).take(v@.len() as int) =~= pairs_view(v@));
    out
}

impl Clone for Config {
    /// A copy with the same settings.
    fn clone(&self) -> (r: Config)
        ensures
            r@ == self@,
    {
        proof {
            use_type_invariant(self);
        }
        Config {
            api_key: self.api_key.clone(),
            base_url: self.base_url.clone(),
            timeout: self.timeout,
            retry: self.retry,
            default_model: clone_opt(&self.default_model),
            user_agent: clone_opt(&self.user_agent),
            organization: clone_opt(&self.organization),
            project: clone_opt(&self.project),
            headers: clone_pairs(&self.headers),
        }
    }
}

impl Config {
    /// The invariant of every configuration: its spans fit in a `Duration`.
    #[verifier::type_invariant]
    spec fn inv(self) -> bool {
        &&& self.retry.wf()
        &&& (self.timeout matches Some(t) ==> t <= MAX_DURATION_NANOS)
    }

    /// A configuration for `api_key` against the OpenAI API, with a timeout
    /// of sixty seconds, the default retry policy, no default model and no
    /// extra header.
    pub fn new(api_key: &str) -> (r: Config)
        ensures
            r@ == (ConfigModel {
                api_key: api_key@,
                base_url: default_base_url(),
                timeout: Some(default_timeout()),
                retry: RetryConfig::spec_default(),
                default_model: None,
                user_agent: None,
                organization: None,
                project: None,
                headers: seq![],
            }),
    {
        let r = Config {
            api_key: api_key.to_owned(),
            base_url: "https://api.openai.com/v1".to_owned(),
            timeout: Some(60_000_000_000u128),
            retry: RetryConfig::default(),
            default_model: None,
            user_agent: None,
            organization: None,
            project: None,
            headers: Vec::new(),
        };
        assert(r@.headers =~= seq![]);
        r
    }

    /// The configuration that `Config::from_env` makes from the values of
    /// `OPENAI_API_KEY`, `OPENAI_BASE_URL` and `OPENAI_MODEL` (`None` for a
    /// variable that is not set).
    pub fn from_env_values(
        api_key: Option<String>,
        base_url: Option<String>,
        default_model: Option<String>,
    ) -> (r: Result<Config>)
        ensures
            api_key.is_none() ==> r == Err::<Config, ClientError>(
                ClientError::MissingEnv("OPENAI_API_KEY"),
            ),
            api_key matches Some(k) ==> r matches Ok(c) && c@ == (ConfigModel {
                api_key: k@,
                base_url: normalize_base_url(
                    match base_url {
                        Some(b) => b@,
                        None => default_base_url(),
                    },
                ),
                timeout: Some(default_timeout()),
                retry: RetryConfig::spec_default(),
                default_model: opt_view(default_model),
                user_agent: None,
                organization: None,
                project: None,
                headers: seq![],
            }),
    {
        match api_key {
            None => Err(ClientError::MissingEnv("OPENAI_API_KEY")),
            Some(key) => {
                let base = match base_url {
                    Some(b) => b,
                    None => "https://api.openai.com/v1".to_owned(),
                };
                let config = Config::new(key.as_str()).with_base_url(base.as_str());
                match default_model {
                    Some(model) => Ok(config.with_default_model(model.as_str())),
                    None => Ok(config),
                }
            },
        }
    }

    /// A configuration for `api_key` against the API of `provider`.
    pub fn for_provider(api_key: &str, provider: Provider) -> (r: Config)
        ensures
            r@ == (ConfigModel {
                api_key: api_key@,
                base_url: normalize_base_url(provider_base_url(provider)),
                timeout: Some(default_timeout()),
                retry: RetryConfig::spec_default(),
                default_model: None,
                user_agent: None,
                organization: None,
                project: None,
                headers: seq![],
            }),
    {
        Config::new(api_key).with_base_url(provider.base_url())
    }

    /// Sets the base URL, without surrounding whitespace and trailing slashes.
    pub fn with_base_url(self, base_url: &str) -> (r: Config)
        ensures
            r@ == (ConfigModel { base_url: normalize_base_url(base_url@), ..self@ }),
    {
        let chars = chars_of(base_url);
        let trimmed = trim_chars(chars.as_slice());
        let normalized = trim_end_matches_char(trimmed.as_slice(), '/');
        proof {
            use_type_invariant(&self);
        }
        Config { base_url: string_of(normalized.as_slice()), ..self }
    }

    /// Sets the request timeout, in nanoseconds.
    pub fn with_timeout(self, timeout: u128) -> (r: Config)
        requires
            timeout <= MAX_DURATION_NANOS,
        ensures
            r@ == (ConfigModel { timeout: Some(timeout), ..self@ }),
    {
        proof {
            use_type_invariant(&self);
        }
        Config { timeout: Some(timeout), ..self }
    }

    /// Removes the request timeout.
    pub fn without_timeout(self) -> (r: Config)
        ensures
            r@ == (ConfigModel { timeout: None, ..self@ }),
    {
        proof {
            use_type_invariant(&self);
        }
        Config { timeout: None, ..self }
    }

    /// Sets how many times a failed request may be sent again.
    pub fn with_max_retries(self, max_retries: usize) -> (r: Config)
        ensures
            r@ == (ConfigModel { retry: RetryConfig { max_retries, ..self@.retry }, ..self@ }),
    {
        proof {
            use_type_invariant(&self);
        }
        let retry = RetryConfig { max_retries, ..self.retry };
        Config { retry, ..self }
    }

    /// Sets the whole retry policy.
    pub fn with_retry_config(self, retry: RetryConfig) -> (r: Config)
        requires
            retry.wf(),
        ensures
            r@ == (ConfigModel { retry, ..self@ }),
    {
        proof {
            use_type_invariant(&self);
        }
        Config { retry, ..self }
    }

    /// Sets the model that requests use when they name none.
    pub fn with_default_model(self, model: &str) -> (r: Config)
        ensures
            r@ == (ConfigModel { default_model: Some(model@), ..self@ }),
    {
        proof {
            use_type_invariant(&self);
        }
        Config { default_model: Some(model.to_owned()), ..self }
    }

    /// Sets the `User-Agent` header.
    pub fn with_user_agent(self, user_agent: &str) -> (r: Config)
        ensures
            r@ == (ConfigModel { user_agent: Some(user_agent@), ..self@ }),
    {
        proof {
            use_type_invariant(&self);
        }
        Config { user_agent: Some(user_agent.to_owned()), ..self }
    }

    /// Sets the `OpenAI-Organization` header.
    pub fn with_organization(self, organization: &str) -> (r: Config)
        ensures
            r@ == (ConfigModel { organization: Some(organization@), ..self@ }),
    {
        proof {
            use_type_invariant(&self);
        }
        Config { organization: Some(organization.to_owned()), ..self }
    }

    /// Sets the `OpenAI-Project` header.
    pub fn with_project(self, project: &str) -> (r: Config)
        ensures
            r@ == (ConfigModel { project: Some(project@), ..self@ }),
    {
        proof {
            use_type_invariant(&self);
        }
        Config { project: Some(project.to_owned()), ..self }
    }

    /// Adds a header that every request carries.
    pub fn with_header(self, name: &str, value: &str) -> (r: Config)
        ensures
            r@ == (ConfigModel { headers: self@.headers.push((name@, value@)), ..self@ }),
    {
        proof {
            use_type_invariant(&self);
        }
        let mut headers = self.headers;
        let ghost before = headers@;
        headers.push((name.to_owned(), value.to_owned()));
        assert(pairs_view(headers@) =~= pairs_view(before).push((name@, value@)));
        Config { headers, ..self }
    }

    /// The API key.
    pub fn api_key(&self) -> (r: &str)
        ensures
            r@ == self@.api_key,
    {
        self.api_key.as_str()
    }

    /// The base URL.
    pub fn base_url(&self) -> (r: &str)
        ensures
            r@ == self@.base_url,
    {
        self.base_url.as_str()
    }

    /// The request timeout, in nanoseconds, if there is one.
    pub fn timeout(&self) -> (r: Option<u128>)
        ensures
            r == self@.timeout,
            r matches Some(t) ==> t <= MAX_DURATION_NANOS,
    {
        proof {
            use_type_invariant(self);
        }
        self.timeout
    }

    /// How many times a failed request may be sent again.
    pub fn max_retries(&self) -> (r: usize)
        ensures
            r == self@.retry.max_retries,
    {
        self.retry.max_retries
    }

    /// The retry policy.
    pub fn retry_config(&self) -> (r: &RetryConfig)
        ensures
            *r == self@.retry,
            r.wf(),
    {
        proof {
            use_type_invariant(self);
        }
        &self.retry
    }

    /// The model that requests use when they name none.
    pub fn default_model(&self) -> (r: Option<&str>)
        ensures
            opt_str(r) == self@.default_model,
    {
        match &self.default_model {
            Some(m) => Some(m.as_str()),
            None => None,
        }
    }

    /// The `User-Agent` header, if set.
    pub fn user_agent(&self) -> (r: Option<&str>)
        ensures
            opt_str(r) == self@.user_agent,
    {
        match &self.user_agent {
            Some(m) => Some(m.as_str()),
            None => None,
        }
    }

    /// The `OpenAI-Organization` header, if set.
    pub fn organization(&self) -> (r: Option<&str>)
        ensures
            opt_str(r) == self@.organization,
    {
        match &self.organization {
            Some(m) => Some(m.as_str()),
            None => None,
        }
    }

    /// The `OpenAI-Project` header, if set.
    pub fn project(&self) -> (r: Option<&str>)
        ensures
            opt_str(r) == self@.project,
    {
        match &self.project {
            Some(m) => Some(m.as_str()),
            None => None,
        }
    }

    /// The extra headers, in the order they were added.
    pub fn headers(&self) -> (r: &[(String, String)])
        ensures
            pairs_view(r@) == self@.headers,
    {
        self.headers.as_slice()
    }

    /// Checks every header that requests will carry; refused, naming the
    /// header, when a name or a value is not valid in HTTP.
    pub fn check_headers(&self) -> (r: Result<()>)
        ensures
            headers_valid(self@) <==> r is Ok,
            r is Err ==> r matches Err(ClientError::InvalidConfig(_)),
    {
        if !optional_value_accepted(&self.user_agent) {
            return Err(ClientError::InvalidConfig("invalid user agent header value".to_owned()));
        }
        if !optional_value_accepted(&self.organization) {
            return Err(ClientError::InvalidConfig("invalid organization header value".to_owned()));
        }
        if !optional_value_accepted(&self.project) {
            return Err(ClientError::InvalidConfig("invalid project header value".to_owned()));
        }
        let mut i: usize = 0;
        while i < self.headers.len()
            invariant
                i <= self.headers@.len(),
                self@.headers.len() == self.headers@.len(),
                forall|k: int| 0 <= k < i ==> #[trigger] valid_header(self@.headers[k]),
            decreases self.headers@.len() - i,
        {
            let name_ok = header_name_accepted(self.headers[i].0.as_str());
            let value_ok = header_value_accepted(self.headers[i].1.as_str());
            assert(self@.headers[i as int] == (self.headers@[i as int].0@, self.headers@[i as int].1@));
            assert(name_ok == valid_header_name(self@.headers[i as int].0));
            assert(value_ok == valid_header_value(self@.headers[i as int].1));
            if !name_ok {
                assert(!valid_header(self@.headers[i as int]));
                return Err(ClientError::InvalidConfig(concat_str("invalid header name: ", self.headers[i].0.as_str())));
            }
            if !value_ok {
                assert(!valid_header(self@.headers[i as int]));
                return Err(ClientError::InvalidConfig(concat_str("invalid value of header ", self.headers[i].0.as_str())));
            }
            assert(valid_header(self@.headers[i as int]));
            i = i + 1;
        }
        Ok(())
    }

    /// The headers that every request carries, besides the authorisation:
    /// the user agent, organization and project when set, then the extra
    /// headers in order.
    pub fn request_headers(&self) -> (r: Vec<(String, String)>)
        ensures
            pairs_view(r@) == request_headers_spec(self@),
    {
        let mut headers: Vec<(String, String)> = Vec::new();
        assert(pairs_view(headers@) =~= Seq::<(Seq<char>, Seq<char>)>::empty());
        push_optional_header(&mut headers, "user-agent", &self.user_agent);
        push_optional_header(&mut headers, "openai-organization", &self.organization);
        push_optional_header(&mut headers, "openai-project", &self.project);
        let ghost before = headers@;
        let mut extra = clone_pairs(&self.headers);
        let ghost tail = extra@;
        headers.append(&mut extra);
        assert(pairs_view(headers@) =~= pairs_view(before) + pairs_view(tail));
        assert(Seq::<(Seq<char>, Seq<char>)>::empty() + optional_header("user-agent"@, self@.user_agent)
            =~= optional_header("user-agent"@, self@.user_agent));
        headers
    }

    /// A description of the configuration that is safe to log: the API key
    /// and the values of the extra headers are replaced by `<redacted>`.
    pub fn debug_text(&self) -> (r: String)
        ensures
            r@ == config_description(self@),
    {
        let mut headers = String::new();
        let mut i: usize = 0;
        assert(self@.headers.take(0) =~= Seq::<(Seq<char>, Seq<char>)>::empty());
        while i < self.headers.len()
            invariant
                i <= self.headers@.len(),
                self@.headers.len() == self.headers@.len(),
                headers@ == redacted_headers(self@.headers.take(i as int)),
            decreases self.headers@.len() - i,
        {
            let ghost h = self@.headers;
            assert(h.take(i + 1).drop_last() =~= h.take(i as int));
            assert(h.take(i + 1).last() == h[i as int]);
            assert(h[i as int].0 == self.headers@[i as int].0@);
            let name = quote(self.headers[i].0.as_str());
            let open = concat_str("(", name.as_str());
            let item = concat_str(open.as_str(), ", \"<redacted>\")");
            if i > 0 {
                let sep = concat_str(headers.as_str(), ", ");
                headers = concat_str(sep.as_str(), item.as_str());
            } else {
                assert(h.take(0) =~= Seq::<(Seq<char>, Seq<char>)>::empty());
                headers = item;
            }
            i = i + 1;
        }
        assert(self@.headers.take(i as int) =~= self@.headers);
        let base = quote(self.base_url.as_str());
        let model = optional_text_of(&self.default_model);
        let agent = optional_text_of(&self.user_agent);
        let org = optional_text_of(&self.organization);
        let project = optional_text_of(&self.project);
        let mut out = concat_str("Config { api_key: \"<redacted>\", base_url: ", base.as_str());
        out = concat_str(out.as_str(), ", default_model: ");
        out = concat_str(out.as_str(), model.as_str());
        out = concat_str(out.as_str(), ", user_agent: ");
        out = concat_str(out.as_str(), agent.as_str());
        out = concat_str(out.as_str(), ", organization: ");
        out = concat_str(out.as_str(), org.as_str());
        out = concat_str(out.as_str(), ", project: ");
        out = concat_str(out.as_str(), project.as_str());
        out = concat_str(out.as_str(), ", headers: [");
        out = concat_str(out.as_str(), headers.as_str());
        out = concat_str(out.as_str(), "] }");
        out
    }

    /// The URL of `path` under the base URL, joined by one slash; refused
    /// when the base URL is empty.
    pub fn endpoint(&self, path: &str) -> (r: Result<String>)
        ensures
            self@.base_url.len() == 0 <==> r matches Err(ClientError::InvalidConfig(_)),
            r matches Ok(url) ==> url@ == join_endpoint(self@.base_url, path@),
            r is Ok || r matches Err(ClientError::InvalidConfig(_)),
    {
        if self.base_url.as_str().is_empty() {
            return Err(ClientError::InvalidConfig("base URL cannot be empty".to_owned()));
        }
        let base = chars_of(self.base_url.as_str());
        let mut joined = concat_chars(base.as_slice(), &['/']);
        let path_chars = chars_of(path);
        let rest = trim_start_matches_char(path_chars.as_slice(), '/');
        joined = concat_chars(joined.as_slice(), rest.as_slice());
        Ok(string_of(joined.as_slice()))
    }
}

/// The text of an optional string slice.
pub open spec fn opt_str(o: Option<&str>) -> Option<Seq<char>> {
    match o {
        Some(s) => Some(s@),
        None => None,
    }
}

/// The URL of a path that does not start with a slash is the base URL, one
/// slash, then the path as it is; the base URL is never changed.
pub proof fn lemma_endpoint_shape(base_url: Seq<char>, path: Seq<char>)
    ensures
        path.len() == 0 || path[0] != '/' ==> join_endpoint(base_url, path) == base_url + seq!['/']
            + path,
        join_endpoint(base_url, path).len() >= base_url.len() + 1,
        join_endpoint(base_url, path).subrange(0, base_url.len() as int) == base_url,
        join_endpoint(base_url, path)[base_url.len() as int] == '/',
{
    let j = join_endpoint(base_url, path);
    assert(j.subrange(0, base_url.len() as int) =~= base_url);
}

/// Leading slashes of a path do not change its endpoint: `endpoint("/x")`
/// and `endpoint("x")` are the same URL.
pub proof fn lemma_endpoint_ignores_leading_slash(base_url: Seq<char>, path: Seq<char>)
    ensures
        join_endpoint(base_url, seq!['/'] + path) == join_endpoint(base_url, path),
{
    assert((seq!['/'] + path).drop_first() =~= path);
}

} // verus!
