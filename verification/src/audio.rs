//! Audio transcription and translation: the checks of a request and the
//! fields of its form. The multipart form itself is written outside the
//! verified library.

use vstd::prelude::*;

use crate::client::ApiClient;
use crate::error::{ClientError, Result};
use crate::text::{opt_view, pairs_view};

verus! {

/// The audio endpoints of a client.
pub struct Audio<'a> {
    client: &'a ApiClient,
}

/// The fields of an audio form, checked and ready to be written: the model,
/// then the file, then the further text fields in order.
#[derive(Debug, Clone)]
pub struct AudioForm {
    pub endpoint: &'static str,
    pub model: String,
    pub filename: String,
    pub bytes: Vec<u8>,
    pub fields: Vec<(String, String)>,
}

/// What a transcription builder holds, as plain values.
pub struct TranscriptionModel {
    pub client: ApiClient,
    pub endpoint: Seq<char>,
    pub model: Option<Seq<char>>,
    pub filename: Option<Seq<char>>,
    pub bytes: Option<Seq<u8>>,
    pub response_format: Option<Seq<char>>,
    pub language: Option<Seq<char>>,
    pub prompt: Option<Seq<char>>,
    pub extra: Seq<(Seq<char>, Seq<char>)>,
}

/// Builds a transcription (or translation) request step by step.
pub struct TranscriptionBuilder<'a> {
    client: &'a ApiClient,
    endpoint: &'static str,
    model: Option<String>,
    filename: Option<String>,
    bytes: Option<Vec<u8>>,
    response_format: Option<String>,
    language: Option<String>,
    prompt: Option<String>,
    extra: Vec<(String, String)>,
}

/// A translation request is built like a transcription request.
pub type TranslationBuilder<'a> = TranscriptionBuilder<'a>;

impl<'a> View for TranscriptionBuilder<'a> {
    type V = TranscriptionModel;

    closed spec fn view(&self) -> TranscriptionModel {
        TranscriptionModel {
            client: *self.client,
            endpoint: self.endpoint@,
            model: opt_view(self.model),
            filename: opt_view(self.filename),
            bytes: crate::files::opt_bytes(self.bytes),
            response_format: opt_view(self.response_format),
            language: opt_view(self.language),
            prompt: opt_view(self.prompt),
            extra: pairs_view(self.extra@),
        }
    }
}

/// The field `name` with text `value`, when there is one.
pub open spec fn optional_field(name: Seq<char>, value: Option<Seq<char>>) -> Seq<(Seq<char>, Seq<char>)> {
    match value {
        Some(v) => seq![(name, v)],
        None => seq![],
    }
}

/// The text fields after the file: the response format, the language and
/// the prompt when they are set, then the extra fields.
pub open spec fn audio_fields(m: TranscriptionModel) -> Seq<(Seq<char>, Seq<char>)> {
    optional_field("response_format"@, m.response_format) + optional_field("language"@, m.language)
        + optional_field("prompt"@, m.prompt) + m.extra
}

/// Appends the field `name` with text `value`, when there is one.
fn push_optional_field(fields: &mut Vec<(String, String)>, name: &str, value: Option<String>)
    ensures
        pairs_view(final(fields)@) == pairs_view(old(fields)@) + optional_field(name@, opt_view(value)),
{
    match value {
        Some(v) => {
            let ghost vv = v@;
            fields.push((name.to_owned(), v));
            assert(pairs_view(final(fields)@) =~= pairs_view(old(fields)@) + seq![(name@, vv)]);
        },
        None => {
            assert(pairs_view(fields@) =~= pairs_view(fields@) + optional_field(name@, None));
        },
    }
}

impl<'a> Audio<'a> {
    /// The client that sends the requests.
    pub closed spec fn spec_client(&self) -> ApiClient {
        *self.client
    }

    /// The audio endpoints of `client`.
    pub fn new(client: &'a ApiClient) -> (r: Audio<'a>)
        ensures
            r.spec_client() == *client,
    {
        Audio { client }
    }

    /// A transcription request.
    pub fn transcription(&self) -> (r: TranscriptionBuilder<'a>)
        ensures
            r@.client == self.spec_client(),
            r@.endpoint == "audio/transcriptions"@,
            r@.model is None && r@.filename is None && r@.bytes is None,
            r@.response_format is None && r@.language is None && r@.prompt is None,
            r@.extra == Seq::<(Seq<char>, Seq<char>)>::empty(),
    {
        TranscriptionBuilder::new(self.client, "audio/transcriptions")
    }

    /// A translation request.
    pub fn translation(&self) -> (r: TranslationBuilder<'a>)
        ensures
            r@.client == self.spec_client(),
            r@.endpoint == "audio/translations"@,
            r@.model is None && r@.filename is None && r@.bytes is None,
            r@.response_format is None && r@.language is None && r@.prompt is None,
            r@.extra == Seq::<(Seq<char>, Seq<char>)>::empty(),
    {
        TranscriptionBuilder::new(self.client, "audio/translations")
    }
}

impl<'a> TranscriptionBuilder<'a> {
    /// An empty request to `endpoint` for `client`.
    pub fn new(client: &'a ApiClient, endpoint: &'static str) -> (r: TranscriptionBuilder<'a>)
        ensures
            r@.client == *client,
            r@.endpoint == endpoint@,
            r@.model is None && r@.filename is None && r@.bytes is None,
            r@.response_format is None && r@.language is None && r@.prompt is None,
            r@.extra == Seq::<(Seq<char>, Seq<char>)>::empty(),
    {
        let r = TranscriptionBuilder {
            client,
            endpoint,
            model: None,
            filename: None,
            bytes: None,
            response_format: None,
            language: None,
            prompt: None,
            extra: Vec::new(),
        };
        assert(r@.extra =~= seq![]);
        r
    }

    /// The client that sends the request.
    pub fn client(&self) -> (r: &'a ApiClient)
        ensures
            *r == self@.client,
    {
        self.client
    }

    /// Sets the model.
    pub fn model(self, model: &str) -> (r: TranscriptionBuilder<'a>)
        ensures
            r@ == (TranscriptionModel { model: Some(model@), ..self@ }),
    {
        TranscriptionBuilder { model: Some(model.to_owned()), ..self }
    }

    /// Sets the audio file: its name and its bytes.
    pub fn file(self, filename: &str, bytes: Vec<u8>) -> (r: TranscriptionBuilder<'a>)
        ensures
            r@ == (TranscriptionModel { filename: Some(filename@), bytes: Some(bytes@), ..self@ }),
    {
        TranscriptionBuilder { filename: Some(filename.to_owned()), bytes: Some(bytes), ..self }
    }

    /// Sets the format of the answer.
    pub fn response_format(self, response_format: &str) -> (r: TranscriptionBuilder<'a>)
        ensures
            r@ == (TranscriptionModel { response_format: Some(response_format@), ..self@ }),
    {
        TranscriptionBuilder { response_format: Some(response_format.to_owned()), ..self }
    }

    /// Sets the language of the audio.
    pub fn language(self, language: &str) -> (r: TranscriptionBuilder<'a>)
        ensures
            r@ == (TranscriptionModel { language: Some(language@), ..self@ }),
    {
        TranscriptionBuilder { language: Some(language.to_owned()), ..self }
    }

    /// Sets a prompt that guides the model.
    pub fn prompt(self, prompt: &str) -> (r: TranscriptionBuilder<'a>)
        ensures
            r@ == (TranscriptionModel { prompt: Some(prompt@), ..self@ }),
    {
        TranscriptionBuilder { prompt: Some(prompt.to_owned()), ..self }
    }

    /// Adds a text field to the form.
    pub fn extra_text(self, key: &str, value: &str) -> (r: TranscriptionBuilder<'a>)
        ensures
            r@ == (TranscriptionModel { extra: self@.extra.push((key@, value@)), ..self@ }),
    {
        let mut extra = self.extra;
        extra.push((key.to_owned(), value.to_owned()));
        let r = TranscriptionBuilder { extra, ..self };
        assert(r@.extra =~= self@.extra.push((key@, value@)));
        r
    }

    /// The fields of the form; refused when the model, the file name or the
    /// bytes are missing.
    pub fn into_form(self) -> (r: Result<AudioForm>)
        ensures
            (self@.model is Some && self@.filename is Some && self@.bytes is Some) <==> r is Ok,
            r is Err ==> r matches Err(ClientError::InvalidConfig(_)),
            r matches Ok(f) ==> {
                &&& f.endpoint@ == self@.endpoint
                &&& Some(f.model@) == self@.model
                &&& Some(f.filename@) == self@.filename
                &&& Some(f.bytes@) == self@.bytes
                &&& pairs_view(f.fields@) == audio_fields(self@)
            },
    {
        let ghost start = self@;
        let model = match self.model {
            Some(m) => m,
            None => {
                return Err(ClientError::InvalidConfig("audio model is required".to_owned()));
            },
        };
        let filename = match self.filename {
            Some(f) => f,
            None => {
                return Err(ClientError::InvalidConfig("audio file name is required".to_owned()));
            },
        };
        let bytes = match self.bytes {
            Some(b) => b,
            None => {
                return Err(ClientError::InvalidConfig("audio bytes are required".to_owned()));
            },
        };
        let mut fields: Vec<(String, String)> = Vec::new();
        assert(pairs_view(fields@) =~= seq![]);
        push_optional_field(&mut fields, "response_format", self.response_format);
        push_optional_field(&mut fields, "language", self.language);
        push_optional_field(&mut fields, "prompt", self.prompt);
        let ghost before = fields@;
        let mut extra = self.extra;
        let ghost tail = extra@;
        fields.append(&mut extra);
        assert(pairs_view(fields@) =~= pairs_view(before) + pairs_view(tail));
        Ok(AudioForm { endpoint: self.endpoint, model, filename, bytes, fields })
    }
}

} // verus!
