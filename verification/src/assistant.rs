//! Decisions around the language-model service: how a user's model name is
//! routed, whether a model passed the test, what the `file` tool says an
//! image is, and the request that asks for a caption.

use vstd::prelude::*;
use vstd::string::{StrSliceExecFns, StringExecFns};

use crate::privkey::{base64_encode, base64_encoded};
use crate::text::{
    first_index_of, first_occurrence, lemma_first_index_of, lemma_first_occurrence, occurs_at, split_once, split_once_str, spec_split_once, spec_split_once_str, str_eq, owned,
};

verus! {

/// The endpoint used for models in the `packy` namespace.
pub const PACKY_ENDPOINT: &'static str = "https://www.packyapi.com/v1/";

/// The namespace whose models go to `PACKY_ENDPOINT`.
pub const PACKY_NAMESPACE: &'static str = "packy";

/// The separator between a namespace and a model name.
pub const NAMESPACE_SEPARATOR: &'static str = "::";

/// The reply that a working model gives to the test prompt.
pub const TEST_REPLY: &'static str = "OK";

/// The prompt that tests a model.
pub const TEST_PROMPT: &'static str = "Test your functionality. Reply with 'OK', no more.";

/// The instruction given with every caption request.
pub const CAPTION_SYSTEM_PROMPT: &'static str = "Describe user's image using at most 2 sentences.";

/// The namespace and the bare name of a model name, split at the first
/// `::` (no namespace without one).
pub open spec fn spec_namespace_and_name(model: Seq<char>) -> (Option<Seq<char>>, Seq<char>) {
    match spec_split_once_str(model, NAMESPACE_SEPARATOR@) {
        Some((ns, name)) => (Some(ns), name),
        None => (None, model),
    }
}

/// Where a model request goes.
#[derive(Debug)]
pub struct ModelRoute {
    /// The adapter named before a `/` in the model name, if any.
    pub adapter: Option<String>,
    /// The model name to send.
    pub model_name: String,
    /// Whether the request goes to `PACKY_ENDPOINT`.
    pub packy_endpoint: bool,
}

/// The adapter of a model name and the model name that is sent: a name of the
/// form `adapter/id` (after the namespace) picks the adapter and keeps `id`
/// under the namespace; other names are sent unchanged.
pub open spec fn spec_route(model: Seq<char>) -> (Option<Seq<char>>, Seq<char>) {
    let (ns, name) = spec_namespace_and_name(model);
    match spec_split_once(name, '/') {
        Some((adapter, id)) => (
            Some(adapter),
            match ns {
                Some(n) => n + NAMESPACE_SEPARATOR@ + id,
                None => id,
            },
        ),
        None => (None, model),
    }
}

/// The namespace of a model name is the text before the first `::`, and the
/// bare name what follows it; a name without `::` has no namespace and is
/// its own bare name.
pub proof fn lemma_namespace_is_before_first_separator(model: Seq<char>)
    ensures
        match spec_namespace_and_name(model) {
            (Some(n), name) => model == n + NAMESPACE_SEPARATOR@ + name
                && forall|j: int| 0 <= j < n.len() ==> !occurs_at(model, NAMESPACE_SEPARATOR@, j),
            (None, name) => name == model && forall|i: int| !occurs_at(model, NAMESPACE_SEPARATOR@, i),
        },
{
    lemma_first_occurrence(model, NAMESPACE_SEPARATOR@);
    match first_occurrence(model, NAMESPACE_SEPARATOR@) {
        Some(i) => {
            let pat = NAMESPACE_SEPARATOR@;
            assert(model =~= model.subrange(0, i) + pat + model.subrange(i + pat.len(), model.len() as int));
        },
        None => {},
    }
}

/// How a model name is routed: when the bare name (after the namespace)
/// holds a `/`, the adapter is the text before its first `/`, so it holds no
/// `/`, and the name sent is the namespace (if any) followed by everything
/// after that first `/`, further slashes kept; a bare name without `/` has no
/// adapter and is sent unchanged.
pub proof fn lemma_route_splits_at_first_slash(model: Seq<char>)
    ensures
        ({
            let (ns, name) = spec_namespace_and_name(model);
            let (adapter, sent) = spec_route(model);
            match adapter {
                Some(a) => {
                    let id = name.subrange(a.len() as int + 1, name.len() as int);
                    &&& !a.contains('/')
                    &&& a.len() < name.len()
                    &&& name == a + seq!['/'] + id
                    &&& sent == match ns {
                        Some(n) => n + NAMESPACE_SEPARATOR@ + id,
                        None => id,
                    }
                },
                None => !name.contains('/') && sent == model,
            }
        }),
{
    let (ns, name) = spec_namespace_and_name(model);
    lemma_first_index_of(name, '/');
    match first_index_of(name, '/') {
        Some(i) => {
            let a = name.subrange(0, i);
            let id = name.subrange(i + 1, name.len() as int);
            assert(name =~= a + seq!['/'] + id);
            assert(!a.contains('/')) by {
                if a.contains('/') {
                    let j = choose|j: int| 0 <= j < a.len() && a[j] == '/';
                    assert(name[j] == '/');
                }
            }
        },
        None => {
            assert(!name.contains('/')) by {
                if name.contains('/') {
                    let j = choose|j: int| 0 <= j < name.len() && name[j] == '/';
                    assert(name[j] == '/');
                }
            }
        },
    }
}

/// Whether the model name that is sent lies in the `packy` namespace.
pub open spec fn spec_uses_packy(model: Seq<char>) -> bool {
    spec_namespace_and_name(spec_route(model).1).0 == Some(PACKY_NAMESPACE@)
}

/// Splits a model name into its namespace and bare name.
pub fn namespace_and_name<'a>(model: &'a str) -> (r: (Option<&'a str>, &'a str))
    ensures
        (match r.0 {
            Some(n) => Some(n@),
            None => None,
        }, r.1@) == spec_namespace_and_name(model@),
{
    match split_once_str(model, NAMESPACE_SEPARATOR) {
        Some((ns, name)) => (Some(ns), name),
        None => (None, model),
    }
}

/// Routes a user's model name: which adapter serves it, which name is sent,
/// and whether it goes to the `packy` endpoint.
pub fn route_model(model: &str) -> (r: ModelRoute)
    ensures
        (match r.adapter {
            Some(a) => Some(a@),
            None => None,
        }, r.model_name@) == spec_route(model@),
        r.packy_endpoint == spec_uses_packy(model@),
{
    let (ns, name) = namespace_and_name(model);
    let (adapter, model_name) = match split_once(name, '/') {
        Some((adapter, id)) => {
            let new_name = match ns {
                Some(n) => {
                    let mut s = String::from_str(n);
                    s.append(NAMESPACE_SEPARATOR);
                    s.append(id);
                    s
                },
                None => owned(id),
            };
            (Some(owned(adapter)), new_name)
        },
        None => (None, owned(model)),
    };
    let (new_ns, _) = namespace_and_name(model_name.as_str());
    let packy_endpoint = match new_ns {
        Some(n) => str_eq(n, PACKY_NAMESPACE),
        None => false,
    };
    ModelRoute { adapter, model_name, packy_endpoint }
}

/// The test passed: the model replied with one text, exactly `OK`.
pub open spec fn spec_reply_is_ok(texts: Seq<Seq<char>>) -> bool {
    texts.len() == 1 && texts[0] == TEST_REPLY@
}

/// Whether a model's reply to the test prompt shows that it works.
pub fn reply_is_ok(texts: &Vec<String>) -> (r: bool)
    ensures
        r == spec_reply_is_ok(texts@.map_values(|s: String| s@)),
{
    texts.len() == 1 && str_eq(texts[0].as_str(), TEST_REPLY)
}

/// The MIME type in the output of `file --mime-type PATH`: the text after
/// the first `: ` of the line, without the final newline.
pub open spec fn spec_mime_of_file_output(output: Seq<char>) -> Option<Seq<char>> {
    match spec_split_once_str(output.drop_last(), ": "@) {
        Some((_, mime)) => Some(mime),
        None => None,
    }
}

/// Reads the MIME type from the output of `file --mime-type PATH`, which ends
/// in a newline; `None` when the output is not of that form.
pub fn mime_from_file_output(output: &str) -> (r: Option<String>)
    requires
        output@.len() > 0,
        output@.last() == '\n',
    ensures
        match r {
            Some(m) => spec_mime_of_file_output(output@) == Some(m@),
            None => spec_mime_of_file_output(output@) is None,
        },
{
    let n = output.unicode_len();
    let line = output.substring_char(0, n - 1);
    match split_once_str(line, ": ") {
        Some((_, mime)) => Some(owned(mime)),
        None => None,
    }
}


/// The text that stands for an image's bytes in a request to the model:
/// their standard Base64 text, with padding.
pub fn image_base64(bytes: &[u8]) -> (r: String)
    ensures
        r@ == base64_encoded(bytes@),
{
    base64_encode(bytes)
}

/// The MIME type given for an image that is sent as a link (its type is not
/// looked up).
pub const LINKED_IMAGE_MIME: &'static str = "image/jpeg";

/// How the image goes to the model.
#[derive(Debug)]
pub enum ImagePart {
    /// A web address, with the MIME type given for it.
    Url { mime: String, url: String },
    /// The image's bytes in Base64, with their MIME type.
    Base64 { mime: String, data: String },
}

/// A request for a caption: the system prompt, then a user message with the
/// instructions, then a user message with the image.
#[derive(Debug)]
pub struct CaptionRequest {
    pub system: String,
    pub prompt: String,
    pub image: ImagePart,
}

/// The request for a caption of the image at a web address, with the
/// instructions `prompt`.
pub fn caption_request_for_url(prompt: &str, url: &str) -> (r: CaptionRequest)
    ensures
        r.system@ == CAPTION_SYSTEM_PROMPT@,
        r.prompt@ == prompt@,
        r.image matches ImagePart::Url { mime, url: u } && mime@ == LINKED_IMAGE_MIME@ && u@ == url@,
{
    CaptionRequest {
        system: owned(CAPTION_SYSTEM_PROMPT),
        prompt: owned(prompt),
        image: ImagePart::Url { mime: owned(LINKED_IMAGE_MIME), url: owned(url) },
    }
}

/// The request for a caption of a local image whose bytes are `bytes` and
/// whose MIME type (as `file` names it) is `mime`, with the instructions
/// `prompt`: the bytes go in Base64.
pub fn caption_request_for_file(prompt: &str, mime: &str, bytes: &[u8]) -> (r: CaptionRequest)
    ensures
        r.system@ == CAPTION_SYSTEM_PROMPT@,
        r.prompt@ == prompt@,
        r.image matches ImagePart::Base64 { mime: m, data } && m@ == mime@ && data@ == base64_encoded(bytes@),
{
    CaptionRequest {
        system: owned(CAPTION_SYSTEM_PROMPT),
        prompt: owned(prompt),
        image: ImagePart::Base64 { mime: owned(mime), data: image_base64(bytes) },
    }
}

/// Why a caption could not be generated.
#[derive(Debug)]
pub enum CaptionError {
    /// Reading the image or running `file` failed; the message says why.
    Io(String),
    /// `file` did not name a MIME type.
    UnknownImageType,
    /// The model service failed; the message says why.
    GenAI(String),
}

/// What the bot was doing when generating a caption failed, as the user is
/// told.
pub fn caption_trouble(e: &CaptionError) -> (r: &'static str)
    ensures
        r@ == match e {
            CaptionError::Io(_) => "processing the image file"@,
            CaptionError::UnknownImageType => "determining image type"@,
            CaptionError::GenAI(_) => "talking to the LM provider"@,
        },
{
    match e {
        CaptionError::Io(_) => "processing the image file",
        CaptionError::UnknownImageType => "determining image type",
        CaptionError::GenAI(_) => "talking to the LM provider",
    }
}

impl CaptionError {
    /// How the error reads.
    pub fn text(&self) -> (r: String)
        ensures
            r@ == match *self {
                CaptionError::Io(m) => "io error: "@ + m@,
                CaptionError::UnknownImageType => "unknown image type"@,
                CaptionError::GenAI(m) => "failed to generate caption: "@ + m@,
            },
    {
        match self {
            CaptionError::Io(m) => {
                let mut r = owned("io error: ");
                r.append(m.as_str());
                r
            },
            CaptionError::UnknownImageType => owned("unknown image type"),
            CaptionError::GenAI(m) => {
                let mut r = owned("failed to generate caption: ");
                r.append(m.as_str());
                r
            },
        }
    }
}

} // verus!
