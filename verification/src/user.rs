//! The settings a user keeps with the bot, and what the bot derives from
//! them for talking to the website's API.

use vstd::prelude::*;
use vstd::string::StringExecFns;

use crate::text::{clone_opt, decimal, i32_to_decimal, is_prefix, opt_view, owned, starts_with};

verus! {

/// The API endpoint used when the user set none (the base that the API's
/// documentation gives).
pub const DEFAULT_API_ENDPOINT: &'static str = "http://localhost";

/// Finds the origin (scheme, host and port) at the start of an endpoint.
pub const ORIGIN_PATTERN: &'static str = r"(https?:\/\/[\w.]+(?::\d+)?)\/?";

/// Finds the site of an endpoint that follows the `/api` convention.
pub const API_BASE_PATTERN: &'static str = r"(https?:\/\/[\w.]+(?::\d+)?)\/api\/?";

/// The first capture group of the leftmost match of the regular expression
/// `pattern` in `haystack`, as the `regex` crate finds it; `None` when there
/// is no match.
pub uninterp spec fn regex_capture(pattern: Seq<char>, haystack: Seq<char>) -> Option<Seq<char>>;

/// Compiles `pattern` with `regex::Regex::new` and returns the text of group 1
/// of `Regex::captures` on `haystack`. Claims only that the result is the one
/// `regex_capture` names. Only the two patterns of this module, which
/// compile, are passed.
#[verifier::external_body]
fn regex_group_1(pattern: &str, haystack: &str) -> (r: Option<String>)
    requires
        pattern@ == ORIGIN_PATTERN@ || pattern@ == API_BASE_PATTERN@,
    ensures
        opt_view(r) == regex_capture(pattern@, haystack@),
{
    regex::Regex::new(pattern).unwrap().captures(haystack).and_then(|c| c.get(1)).map(|m| m.as_str().to_string())
}

/// A user's settings.
#[derive(Clone, Debug)]
pub struct Configuration {
    pub post_auth_key: Option<String>,
    pub endpoint: Option<String>,
    pub vision_model_name: Option<String>,
    pub vision_model_key: Option<String>,
}

/// The abstract value of a configuration.
pub struct ConfigurationView {
    pub post_auth_key: Option<Seq<char>>,
    pub endpoint: Option<Seq<char>>,
    pub vision_model_name: Option<Seq<char>>,
    pub vision_model_key: Option<Seq<char>>,
}

impl View for Configuration {
    type V = ConfigurationView;

    open spec fn view(&self) -> ConfigurationView {
        ConfigurationView {
            post_auth_key: opt_view(self.post_auth_key),
            endpoint: opt_view(self.endpoint),
            vision_model_name: opt_view(self.vision_model_name),
            vision_model_key: opt_view(self.vision_model_key),
        }
    }
}

impl Default for Configuration {
    fn default() -> (r: Self)
        ensures
            r@ == (ConfigurationView { post_auth_key: None, endpoint: None, vision_model_name: None, vision_model_key: None }),
    {
        Configuration { post_auth_key: None, endpoint: None, vision_model_name: None, vision_model_key: None }
    }
}

/// What the bot needs to talk to the website: where, with which key, and the
/// `Origin` header to send.
#[derive(Debug)]
pub struct ApiSettings {
    pub base_path: String,
    pub api_key: Option<String>,
    pub origin: Option<String>,
}

/// The endpoint the user set, else the default one.
pub open spec fn spec_endpoint(c: ConfigurationView) -> Seq<char> {
    match c.endpoint {
        Some(e) => e,
        None => DEFAULT_API_ENDPOINT@,
    }
}

/// Whether a text is an HTTP or HTTPS address.
pub open spec fn spec_is_http_url(s: Seq<char>) -> bool {
    is_prefix("http://"@, s) || is_prefix("https://"@, s)
}

/// The message that reports a created gallery post: with its address when
/// the endpoint follows the `/api` convention and the id is known.
pub open spec fn spec_gallery_created_message(endpoint: Seq<char>, gallery_id: i32) -> Seq<char> {
    match regex_capture(API_BASE_PATTERN@, endpoint) {
        Some(site) => if gallery_id >= 0 {
            GALLERY_CREATED_AT@ + site + GALLERY_PATH@ + decimal(gallery_id as int)
        } else {
            GALLERY_CREATED@
        },
        None => GALLERY_CREATED@,
    }
}

/// The message for a created post whose address is not known.
pub const GALLERY_CREATED: &'static str = "The post has been created~";

/// The start of the message for a created post whose address is known.
pub const GALLERY_CREATED_AT: &'static str = "The post has been created~ Check it out! ";

/// The path of gallery posts on the site.
pub const GALLERY_PATH: &'static str = "/gallery/";

/// Whether a text is an HTTP or HTTPS address; only such texts are accepted
/// as API endpoints.
pub fn is_http_url(s: &str) -> (r: bool)
    ensures
        r == spec_is_http_url(s@),
{
    starts_with(s, "http://") || starts_with(s, "https://")
}

impl Configuration {
    /// A copy of the settings.
    pub fn duplicate(&self) -> (r: Self)
        ensures
            r@ == self@,
    {
        Configuration {
            post_auth_key: clone_opt(&self.post_auth_key),
            endpoint: clone_opt(&self.endpoint),
            vision_model_name: clone_opt(&self.vision_model_name),
            vision_model_key: clone_opt(&self.vision_model_key),
        }
    }

    /// The settings with a new post authorization key.
    pub fn with_post_auth_key(self, key: &str) -> (r: Self)
        ensures
            r@ == (ConfigurationView { post_auth_key: Some(key@), ..self@ }),
    {
        Configuration { post_auth_key: Some(owned(key)), ..self }
    }

    /// The settings with a new API endpoint.
    pub fn with_endpoint(self, endpoint: &str) -> (r: Self)
        ensures
            r@ == (ConfigurationView { endpoint: Some(endpoint@), ..self@ }),
    {
        Configuration { endpoint: Some(owned(endpoint)), ..self }
    }

    /// The settings with a new vision model name.
    pub fn with_vision_model_name(self, name: &str) -> (r: Self)
        ensures
            r@ == (ConfigurationView { vision_model_name: Some(name@), ..self@ }),
    {
        Configuration { vision_model_name: Some(owned(name)), ..self }
    }

    /// The settings with a new vision model key.
    pub fn with_vision_model_key(self, key: &str) -> (r: Self)
        ensures
            r@ == (ConfigurationView { vision_model_key: Some(key@), ..self@ }),
    {
        Configuration { vision_model_key: Some(owned(key)), ..self }
    }

    /// Whether a vision model is set up: both its name and its key are known.
    pub fn has_vision_model(&self) -> (r: bool)
        ensures
            r == (self@.vision_model_name is Some && self@.vision_model_key is Some),
    {
        self.vision_model_name.is_some() && self.vision_model_key.is_some()
    }

    /// Whether the user can translate posts: a vision model and a post
    /// authorization key are set up.
    pub fn can_translate(&self) -> (r: bool)
        ensures
            r == (self@.vision_model_name is Some && self@.vision_model_key is Some && self@.post_auth_key is Some),
    {
        self.vision_model_name.is_some() && self.vision_model_key.is_some() && self.post_auth_key.is_some()
    }

    /// The endpoint the user set, else the default one.
    pub fn endpoint_or_default(&self) -> (r: String)
        ensures
            r@ == spec_endpoint(self@),
    {
        match &self.endpoint {
            Some(e) => e.clone(),
            None => owned(DEFAULT_API_ENDPOINT),
        }
    }

    /// How to reach the website's API: the endpoint (or the default), the
    /// post authorization key, and, when the endpoint starts with an origin,
    /// that origin as the `Origin` header.
    pub fn to_openapi(self) -> (r: ApiSettings)
        ensures
            r.base_path@ == spec_endpoint(self@),
            opt_view(r.api_key) == self@.post_auth_key,
            opt_view(r.origin) == regex_capture(ORIGIN_PATTERN@, spec_endpoint(self@)),
    {
        let endpoint = self.endpoint_or_default();
        let origin = regex_group_1(ORIGIN_PATTERN, endpoint.as_str());
        ApiSettings { base_path: endpoint, api_key: self.post_auth_key, origin }
    }
}

/// The message that reports a created gallery post.
pub fn gallery_created_message(endpoint: &str, gallery_id: i32) -> (r: String)
    ensures
        r@ == spec_gallery_created_message(endpoint@, gallery_id),
{
    match regex_group_1(API_BASE_PATTERN, endpoint) {
        Some(site) => {
            if gallery_id >= 0 {
                let mut r = String::from_str(GALLERY_CREATED_AT);
                r.append(site.as_str());
                r.append(GALLERY_PATH);
                r.append(i32_to_decimal(gallery_id).as_str());
                r
            } else {
                owned(GALLERY_CREATED)
            }
        },
        None => owned(GALLERY_CREATED),
    }
}

} // verus!
