//! What is sent to the website to store an image, and the stages of
//! publishing a gallery post.

use vstd::prelude::*;
use vstd::string::StringExecFns;

use crate::image::{spec_filename, Image, ImageSource};
use crate::text::owned;

verus! {

/// The text that `urlencoding::encode` makes of `s` (percent-encoding of
/// every byte but ASCII letters, digits and `-._~`).
pub uninterp spec fn url_encoded(s: Seq<char>) -> Seq<char>;

/// Calls `urlencoding::encode`. Claims only that the result is the text
/// `url_encoded` names.
#[verifier::external_body]
fn urlencode(s: &str) -> (r: String)
    ensures
        r@ == url_encoded(s@),
{
    urlencoding::encode(s).to_string()
}

/// The name under which an image without one is uploaded.
pub const UNKNOWN_FILE_NAME: &'static str = "unknown";

/// How an image reaches the website.
#[derive(Debug)]
pub enum ImageUpload {
    /// The file at `path` is uploaded, with its description and name in
    /// URL-encoded headers and its length (as the API's 32-bit integer).
    File { path: String, alt_text_header: String, file_name_header: String, content_length: i32 },
    /// The website is told the address of the image and its description.
    Link { url: String, alt_text: String },
}

impl Image {
    /// What is sent to store the image. A local file needs its length in
    /// bytes, which is cut to the API's 32-bit integer as `as` does.
    pub fn upload_request(&self, file_len: Option<u64>) -> (r: ImageUpload)
        requires
            (self.source is LocalFile) == (file_len is Some),
        ensures
            match self.source {
                ImageSource::LocalFile(path) => r matches ImageUpload::File {
                    path: p,
                    alt_text_header: a,
                    file_name_header: f,
                    content_length: c,
                } && p@ == path@ && a@ == url_encoded(self.alt_text@) && f@ == url_encoded(
                    match spec_filename(self.source) {
                        Some(n) => n,
                        None => UNKNOWN_FILE_NAME@,
                    },
                ) && c == (file_len->0 as i32),
                ImageSource::Url(url) => r matches ImageUpload::Link { url: u, alt_text: a } && u@ == url@ && a@
                    == self.alt_text@,
            },
    {
        match &self.source {
            ImageSource::LocalFile(path) => {
                let len = match file_len {
                    Some(l) => l,
                    None => 0,
                };
                let name = match self.source.filename() {
                    Some(n) => n,
                    None => owned(UNKNOWN_FILE_NAME),
                };
                ImageUpload::File {
                    path: path.clone(),
                    alt_text_header: urlencode(self.alt_text.as_str()),
                    file_name_header: urlencode(name.as_str()),
                    content_length: len as i32,
                }
            },
            ImageSource::Url(url) => ImageUpload::Link { url: url.clone(), alt_text: self.alt_text.clone() },
        }
    }
}

/// A stage of publishing a gallery post.
#[derive(Clone, Copy, Debug, PartialEq, Eq, Structural)]
pub enum State {
    UploadingImage,
    CreatingPost,
    /// The post was created under this id.
    Completed(i32),
}

/// The message that announces a stage, if it has one.
pub fn progress_message(s: State) -> (r: Option<&'static str>)
    ensures
        match s {
            State::UploadingImage => r == Some("Uploading photo..."),
            State::CreatingPost => r == Some("Creating content..."),
            State::Completed(_) => r is None,
        },
{
    match s {
        State::UploadingImage => Some("Uploading photo..."),
        State::CreatingPost => Some("Creating content..."),
        State::Completed(_) => None,
    }
}

/// Why storing an image on the website failed.
#[derive(Clone, Debug)]
pub enum UploadError {
    /// Uploading the file failed; the message says why.
    Upload(String),
    /// Registering the web address failed; the message says why.
    Create(String),
    /// Reading the local file failed; the message says why.
    Io(String),
}

/// How an upload error reads.
pub open spec fn spec_upload_error_text(e: UploadError) -> Seq<char> {
    match e {
        UploadError::Upload(m) => "upload: "@ + m@,
        UploadError::Create(m) => "create: "@ + m@,
        UploadError::Io(m) => "handle files: "@ + m@,
    }
}

impl UploadError {
    /// How the error reads.
    pub fn text(&self) -> (r: String)
        ensures
            r@ == spec_upload_error_text(*self),
    {
        let (head, m) = match self {
            UploadError::Upload(m) => ("upload: ", m),
            UploadError::Create(m) => ("create: ", m),
            UploadError::Io(m) => ("handle files: ", m),
        };
        let mut r = owned(head);
        r.append(m.as_str());
        r
    }
}

/// Why publishing a gallery post failed.
#[derive(Clone, Debug)]
pub enum PublishError {
    /// The image could not be stored.
    PushPhoto(UploadError),
    /// The post could not be created; the message says why.
    CreatePost(String),
}

/// How a publishing error reads.
pub open spec fn spec_publish_error_text(e: PublishError) -> Seq<char> {
    match e {
        PublishError::PushPhoto(u) => "push photo failed to "@ + spec_upload_error_text(u),
        PublishError::CreatePost(m) => "post creation failed: "@ + m@,
    }
}

impl PublishError {
    /// How the error reads.
    pub fn text(&self) -> (r: String)
        ensures
            r@ == spec_publish_error_text(*self),
    {
        match self {
            PublishError::PushPhoto(u) => {
                let mut r = owned("push photo failed to ");
                r.append(u.text().as_str());
                r
            },
            PublishError::CreatePost(m) => {
                let mut r = owned("post creation failed: ");
                r.append(m.as_str());
                r
            },
        }
    }
}

} // verus!
