//! The library's error type, and the error that a provider answers with.

use vstd::prelude::*;

use crate::json::{json_get, json_member, json_parse, json_text_member, parse_json, text_member};
use crate::text::opt_view;

verus! {

/// `reqwest::Error`: a failure of the HTTP transport.
#[verifier::external_type_specification]
#[verifier::external_body]
pub struct ExHttpError(reqwest::Error);

/// `reqwest::StatusCode`: an HTTP status code.
#[verifier::external_type_specification]
#[verifier::external_body]
pub struct ExStatusCode(reqwest::StatusCode);

/// `reqwest::header::HeaderMap`: the headers of a response.
#[verifier::external_type_specification]
#[verifier::external_body]
#[verifier::reject_recursive_types(T)]
pub struct ExHeaderMap<T>(reqwest::header::HeaderMap<T>);

/// `reqwest::header::HeaderValue`: the value of a header.
#[verifier::external_type_specification]
#[verifier::external_body]
pub struct ExHeaderValue(reqwest::header::HeaderValue);

/// What a header map holds, as text: for each header name (in lower case)
/// whose first value is visible ASCII text, that text.
pub uninterp spec fn header_texts(m: reqwest::header::HeaderMap) -> Map<Seq<char>, Seq<char>>;

/// The text of the header `name`, when it holds visible ASCII text.
pub open spec fn header_text_of(m: reqwest::header::HeaderMap, name: Seq<char>) -> Option<Seq<char>> {
    if header_texts(m).contains_key(name) {
        Some(header_texts(m)[name])
    } else {
        None
    }
}

/// `HeaderMap::get` and then `HeaderValue::to_str`: the text of the first
/// value of the header `name`, given in lower case, if the header is there
/// and that value is visible ASCII.
#[verifier::external_body]
fn header_text(headers: &reqwest::header::HeaderMap, name: &str) -> (r: Option<String>)
    requires
        forall|i: int| 0 <= i < name@.len() ==> !('A' <= #[trigger] name@[i] && name@[i] <= 'Z'),
    ensures
        match r {
            Some(t) => header_texts(*headers).contains_key(name@) && header_texts(*headers)[name@]
                == t@,
            None => !header_texts(*headers).contains_key(name@),
        },
{
    headers.get(name).and_then(|value| value.to_str().ok()).map(|text| text.to_owned())
}

/// The text of the member `key` of the `error` object of the JSON document
/// `body`, when there is one and it is a string.
pub open spec fn api_error_field(body: Seq<char>, key: Seq<char>) -> Option<Seq<char>> {
    match json_parse(body) {
        Some(doc) => match json_member(doc, "error"@) {
            Some(e) => json_text_member(e, key),
            None => None,
        },
        None => None,
    }
}

/// An unsuccessful answer of a provider: its status, the fields of an
/// OpenAI-style `error` object when the body holds one, the request id that
/// the provider gave, and the body as it came.
#[derive(Debug)]
pub struct ApiError {
    pub status: reqwest::StatusCode,
    pub error_type: Option<String>,
    pub code: Option<String>,
    pub param: Option<String>,
    pub message: Option<String>,
    pub request_id: Option<String>,
    pub body: String,
}

/// A copy of an optional text.
fn owned_text(t: Option<&str>) -> (r: Option<String>)
    ensures
        opt_view(r) == match t {
            Some(s) => Some(s@),
            None => None,
        },
{
    match t {
        Some(s) => Some(s.to_owned()),
        None => None,
    }
}

impl ApiError {
    /// The error that `status`, `headers` and `body` describe: `type`,
    /// `code`, `param` and `message` from the `error` object of a JSON body,
    /// and the request id from the `x-request-id` header.
    pub fn from_parts(status: reqwest::StatusCode, headers: &reqwest::header::HeaderMap, body: &str) -> (r: ApiError)
        ensures
            r.status == status,
            r.body@ == body@,
            opt_view(r.request_id) == header_text_of(*headers, "x-request-id"@),
            opt_view(r.error_type) == api_error_field(body@, "type"@),
            opt_view(r.code) == api_error_field(body@, "code"@),
            opt_view(r.param) == api_error_field(body@, "param"@),
            opt_view(r.message) == api_error_field(body@, "message"@),
    {
        proof {
            reveal_strlit("x-request-id");
        }
        let request_id = header_text(headers, "x-request-id");
        let parsed = parse_json(body);
        let (error_type, code, param, message) = match &parsed {
            Ok(doc) => match json_get(doc, "error") {
                Some(e) => (
                    owned_text(text_member(e, "type")),
                    owned_text(text_member(e, "code")),
                    owned_text(text_member(e, "param")),
                    owned_text(text_member(e, "message")),
                ),
                None => (None, None, None, None),
            },
            Err(_) => (None, None, None, None),
        };
        ApiError { status, error_type, code, param, message, request_id, body: body.to_owned() }
    }
}

/// What can go wrong while configuring a client, building a request or
/// talking to a provider.
#[derive(Debug)]
pub enum ClientError {
    /// A required environment variable is not set.
    MissingEnv(&'static str),
    /// The configuration or a request is not usable; the text says why.
    InvalidConfig(String),
    /// A response carries no text output.
    MissingText,
    /// A response carries no embedding vector.
    MissingEmbedding,
    /// The HTTP transport failed.
    Http(reqwest::Error),
    /// A JSON document could not be parsed or written.
    Json(serde_json::Error),
    /// The provider answered with an unsuccessful status.
    Api(ApiError),
    /// A tool call names a tool that is not registered.
    UnknownTool(String),
}

/// The result of the library's fallible operations.
pub type Result<T> = core::result::Result<T, ClientError>;

} // verus!
