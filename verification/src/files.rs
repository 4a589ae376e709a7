//! Files: the paths of the file endpoints, and the checks and parts of an
//! upload. The multipart form itself is written outside the verified library.

use vstd::prelude::*;

use crate::client::ApiClient;
use crate::error::{ClientError, Result};
use crate::text::{concat_str, opt_view, pairs_view};

verus! {

/// The answer to a file deletion.
#[derive(Debug, Clone, PartialEq, Eq)]
pub struct DeletedFile {
    pub id: String,
    pub object: Option<String>,
    pub deleted: bool,
}

/// The file endpoints of a client.
pub struct Files<'a> {
    client: &'a ApiClient,
}

impl<'a> Files<'a> {
    /// The client that sends the requests.
    pub closed spec fn spec_client(&self) -> ApiClient {
        *self.client
    }

    /// The file endpoints of `client`.
    pub fn new(client: &'a ApiClient) -> (r: Files<'a>)
        ensures
            r.spec_client() == *client,
    {
        Files { client }
    }

    /// The client that sends the requests.
    pub fn client(&self) -> (r: &'a ApiClient)
        ensures
            *r == self.spec_client(),
    {
        self.client
    }

    /// The path that lists the files.
    pub fn list_path() -> (r: String)
        ensures
            r@ == "files"@,
    {
        "files".to_owned()
    }

    /// The path of the file `file_id`.
    pub fn file_path(file_id: &str) -> (r: String)
        ensures
            r@ == "files/"@ + file_id@,
    {
        concat_str("files/", file_id)
    }

    /// The path of the content of the file `file_id`.
    pub fn content_path(file_id: &str) -> (r: String)
        ensures
            r@ == "files/"@ + file_id@ + "/content"@,
    {
        let file = concat_str("files/", file_id);
        concat_str(file.as_str(), "/content")
    }
}


/// The parts of an upload, checked and ready to be written as a form: the
/// purpose, the file, and further text fields in order.
#[derive(Debug, Clone)]
pub struct FileUpload {
    pub purpose: String,
    pub filename: String,
    pub bytes: Vec<u8>,
    pub extra: Vec<(String, String)>,
}

/// What an upload builder holds, as plain values.
pub struct FileUploadModel {
    pub client: ApiClient,
    pub purpose: Seq<char>,
    pub filename: Option<Seq<char>>,
    pub bytes: Option<Seq<u8>>,
    pub extra: Seq<(Seq<char>, Seq<char>)>,
}

/// The view of optional bytes.
pub open spec fn opt_bytes(b: Option<Vec<u8>>) -> Option<Seq<u8>> {
    match b {
        Some(v) => Some(v@),
        None => None,
    }
}

/// Builds a file upload step by step.
pub struct FileUploadBuilder<'a> {
    client: &'a ApiClient,
    purpose: String,
    filename: Option<String>,
    bytes: Option<Vec<u8>>,
    extra: Vec<(String, String)>,
}

impl<'a> View for FileUploadBuilder<'a> {
    type V = FileUploadModel;

    closed spec fn view(&self) -> FileUploadModel {
        FileUploadModel {
            client: *self.client,
            purpose: self.purpose@,
            filename: opt_view(self.filename),
            bytes: opt_bytes(self.bytes),
            extra: pairs_view(self.extra@),
        }
    }
}

impl<'a> FileUploadBuilder<'a> {
    /// An upload with `purpose` for `client`.
    pub fn new(client: &'a ApiClient, purpose: &str) -> (r: FileUploadBuilder<'a>)
        ensures
            r@ == (FileUploadModel {
                client: *client,
                purpose: purpose@,
                filename: None,
                bytes: None,
                extra: seq![],
            }),
    {
        let r = FileUploadBuilder {
            client,
            purpose: purpose.to_owned(),
            filename: None,
            bytes: None,
            extra: Vec::new(),
        };
        assert(r@.extra =~= seq![]);
        r
    }

    /// The client that sends the upload.
    pub fn client(&self) -> (r: &'a ApiClient)
        ensures
            *r == self@.client,
    {
        self.client
    }

    /// Sets the file: its name and its bytes.
    pub fn bytes(self, filename: &str, bytes: Vec<u8>) -> (r: FileUploadBuilder<'a>)
        ensures
            r@ == (FileUploadModel { filename: Some(filename@), bytes: Some(bytes@), ..self@ }),
    {
        FileUploadBuilder { filename: Some(filename.to_owned()), bytes: Some(bytes), ..self }
    }

    /// Adds a text field to the form.
    pub fn extra_text(self, key: &str, value: &str) -> (r: FileUploadBuilder<'a>)
        ensures
            r@ == (FileUploadModel { extra: self@.extra.push((key@, value@)), ..self@ }),
    {
        let mut extra = self.extra;
        extra.push((key.to_owned(), value.to_owned()));
        let r = FileUploadBuilder { extra, ..self };
        assert(r@.extra =~= self@.extra.push((key@, value@)));
        r
    }

    /// The parts of the upload; refused when the file name or the bytes are
    /// missing.
    pub fn into_upload(self) -> (r: Result<FileUpload>)
        ensures
            (self@.filename is Some && self@.bytes is Some) <==> r is Ok,
            r is Err ==> r matches Err(ClientError::InvalidConfig(_)),
            r matches Ok(u) ==> {
                &&& u.purpose@ == self@.purpose
                &&& Some(u.filename@) == self@.filename
                &&& Some(u.bytes@) == self@.bytes
                &&& pairs_view(u.extra@) == self@.extra
            },
    {
        let filename = match self.filename {
            Some(f) => f,
            None => {
                return Err(ClientError::InvalidConfig("file name is required".to_owned()));
            },
        };
        let bytes = match self.bytes {
            Some(b) => b,
            None => {
                return Err(ClientError::InvalidConfig("file bytes are required".to_owned()));
            },
        };
        Ok(FileUpload { purpose: self.purpose, filename, bytes, extra: self.extra })
    }
}

} // verus!
