//! The replies of the bot and the steps of its simpler conversations: the
//! commands sent while idle, the settings a user sends, the choice of what
//! to post, and the setup of a vision model.
//!
//! A step takes the state of the conversation and what the user sent, and
//! gives the next state and the replies. Where the bot has to ask the
//! website, the store or a model before it can go on, the step says what to
//! ask, and a later step takes the answer.

use vstd::prelude::*;

use crate::bot::{spec_post_kind_named, PostKind};
use crate::command::Command;
use crate::locale::SupportedLocale;
use crate::state::{GlobalState, UpdateVisionModelState};
use crate::text::owned;
use crate::user::{spec_is_http_url, is_http_url, Configuration, ConfigurationView};

verus! {

/// The keyboard sent with a reply.
#[derive(Clone, Copy, Debug, PartialEq, Eq, Structural)]
pub enum Keyboard {
    /// No keyboard: the one shown stays.
    Keep,
    /// Takes the reply keyboard away.
    Remove,
    /// The reply keyboard with "Done" and "Cancel".
    DoneCancel,
    /// One inline button per kind of post, named and carrying its name.
    PostKinds,
    /// The inline buttons "Good" and "Bad".
    GoodBad,
    /// The inline button "Generate".
    Generate,
    /// The inline button "Retry", carrying "Retry " and the locale's code.
    Retry(SupportedLocale),
    /// The inline buttons "Post" (labelled by `post_button_label` with the
    /// numbers of successes and failures) and "Cancel".
    PostCancel(usize, usize),
}

/// A message the bot sends.
#[derive(Debug)]
pub struct Reply {
    pub text: String,
    pub keyboard: Keyboard,
}

/// `r` says `text` with keyboard `keyboard`.
pub open spec fn reply_is(r: Reply, text: Seq<char>, keyboard: Keyboard) -> bool {
    r.text@ == text && r.keyboard == keyboard
}

/// The replies `rs` say, in order, the texts with the keyboards of `expected`.
pub open spec fn replies_are(rs: Seq<Reply>, expected: Seq<(Seq<char>, Keyboard)>) -> bool {
    &&& rs.len() == expected.len()
    &&& forall|i: int| 0 <= i < rs.len() ==> reply_is(#[trigger] rs[i], expected[i].0, expected[i].1)
}

/// A reply with no keyboard.
pub fn say(text: &str) -> (r: Reply)
    ensures
        reply_is(r, text@, Keyboard::Keep),
{
    Reply { text: owned(text), keyboard: Keyboard::Keep }
}

/// A reply with a keyboard.
pub fn say_with(text: &str, keyboard: Keyboard) -> (r: Reply)
    ensures
        reply_is(r, text@, keyboard),
{
    Reply { text: owned(text), keyboard }
}

pub const CHOOSE_POST_KIND: &'static str = "Choose what you want!";

pub const SET_KEY_FIRST: &'static str = "You should /setkey first";

pub const ASK_KEY: &'static str = "Send new key to update, after which sensitive data will be erased.";

pub const ASK_ENDPOINT: &'static str = "Send new API endpoint, beginning with http:// or https://";

pub const ASK_MODEL_NAME: &'static str = "Tell me name of the model. Use namespace to represent the provider, or omit to use official one. Use slash for adapter kind. For example, together::openai/gpt-oss-20b";

pub const CHOOSE_TRANSLATION_KIND: &'static str = "What would you like to translate today?";

pub const SET_KEY_AND_MODEL_FIRST: &'static str = "You should /setkey and /setvisionmodel first";

/// The state a command moves an idle user to, and the reply. `allowed` says
/// whether the user's settings allow `/post` (see `post_allowed`) or
/// `/translate` (see `Configuration::can_translate`); a refused command
/// leaves the user idle. `/help` is answered with the list of commands, and
/// gives `None` here.
pub open spec fn spec_command_step(c: Command, allowed: bool) -> Option<(GlobalState, Seq<char>, Keyboard)> {
    match c {
        Command::Help => None,
        Command::SetKey => Some((GlobalState::UpdatingKey, ASK_KEY@, Keyboard::Keep)),
        Command::SetApi => Some((GlobalState::UpdatingApiEndpoint, ASK_ENDPOINT@, Keyboard::Keep)),
        Command::SetVisionModel => Some((GlobalState::UpdatingVisionModel, ASK_MODEL_NAME@, Keyboard::Keep)),
        Command::Post => if allowed {
            Some((GlobalState::PostRequestd, CHOOSE_POST_KIND@, Keyboard::PostKinds))
        } else {
            Some((GlobalState::Idle, SET_KEY_FIRST@, Keyboard::Keep))
        },
        Command::Translate => if allowed {
            Some((GlobalState::TranslationRequested, CHOOSE_TRANSLATION_KIND@, Keyboard::PostKinds))
        } else {
            Some((GlobalState::Idle, SET_KEY_AND_MODEL_FIRST@, Keyboard::Keep))
        },
    }
}

/// Answers a command sent while idle.
pub fn command_step(c: Command, allowed: bool) -> (r: Option<(GlobalState, Reply)>)
    ensures
        match spec_command_step(c, allowed) {
            Some((g, text, kb)) => r matches Some((g2, rep)) && g2 == g && reply_is(rep, text, kb),
            None => r is None,
        },
{
    match c {
        Command::Help => None,
        Command::SetKey => Some((GlobalState::UpdatingKey, say(ASK_KEY))),
        Command::SetApi => Some((GlobalState::UpdatingApiEndpoint, say(ASK_ENDPOINT))),
        Command::SetVisionModel => Some((GlobalState::UpdatingVisionModel, say(ASK_MODEL_NAME))),
        Command::Post => if allowed {
            Some((GlobalState::PostRequestd, say_with(CHOOSE_POST_KIND, Keyboard::PostKinds)))
        } else {
            Some((GlobalState::Idle, say(SET_KEY_FIRST)))
        },
        Command::Translate => if allowed {
            Some((GlobalState::TranslationRequested, say_with(CHOOSE_TRANSLATION_KIND, Keyboard::PostKinds)))
        } else {
            Some((GlobalState::Idle, say(SET_KEY_AND_MODEL_FIRST)))
        },
    }
}

pub const NEED_TEXT: &'static str = "You should send a text message";

pub const NOT_HTTP_URL: &'static str = "Whatever you've sent is not an HTTP(s) url and is unsupported. Try again?";

pub const KEY_UPDATED: &'static str = "Post authorization key has been updated.";

pub const KEY_UPDATE_FAILED: &'static str = "Failed to update key. Please refer to console logs for detail.";

pub const ENDPOINT_UPDATED: &'static str = "API endpoint base URL has been updated.";

pub const ENDPOINT_UPDATE_FAILED: &'static str = "Failed to update API endpoint. Please refer to console logs for detail.";

/// A setting that the user sends as a text.
#[derive(Clone, Copy, Debug, PartialEq, Eq, Structural)]
pub enum Setting {
    /// The post authorization key (state `UpdatingKey`).
    Key,
    /// The API endpoint (state `UpdatingApiEndpoint`).
    Endpoint,
}

/// The refusal of a text sent as a setting, if it is refused: a key is
/// always taken; an endpoint only when it is an HTTP or HTTPS address.
pub fn setting_refusal(setting: Setting, text: &str) -> (r: Option<Reply>)
    ensures
        match setting {
            Setting::Key => r is None,
            Setting::Endpoint => if spec_is_http_url(text@) {
                r is None
            } else {
                r matches Some(rep) && reply_is(rep, NOT_HTTP_URL@, Keyboard::Keep)
            },
        },
{
    match setting {
        Setting::Key => None,
        Setting::Endpoint => if is_http_url(text) {
            None
        } else {
            Some(say(NOT_HTTP_URL))
        },
    }
}

/// The settings to store when the user's text for `setting` is taken,
/// given the stored ones (or the defaults): only that setting changes.
pub fn apply_setting(setting: Setting, old: Configuration, text: &str) -> (r: Configuration)
    ensures
        r@ == match setting {
            Setting::Key => ConfigurationView { post_auth_key: Some(text@), ..old@ },
            Setting::Endpoint => ConfigurationView { endpoint: Some(text@), ..old@ },
        },
{
    match setting {
        Setting::Key => old.with_post_auth_key(text),
        Setting::Endpoint => old.with_endpoint(text),
    }
}

/// The state and reply after storing a setting: back to idle when it was
/// stored, else the user stays and may send it again.
pub open spec fn spec_setting_stored(setting: Setting, stored: bool) -> (GlobalState, Seq<char>) {
    match setting {
        Setting::Key => if stored {
            (GlobalState::Idle, KEY_UPDATED@)
        } else {
            (GlobalState::UpdatingKey, KEY_UPDATE_FAILED@)
        },
        Setting::Endpoint => if stored {
            (GlobalState::Idle, ENDPOINT_UPDATED@)
        } else {
            (GlobalState::UpdatingApiEndpoint, ENDPOINT_UPDATE_FAILED@)
        },
    }
}

/// Reports whether a setting was stored.
pub fn setting_stored(setting: Setting, stored: bool) -> (r: (GlobalState, Reply))
    ensures
        r.0 == spec_setting_stored(setting, stored).0,
        reply_is(r.1, spec_setting_stored(setting, stored).1, Keyboard::Keep),
{
    match setting {
        Setting::Key => if stored {
            (GlobalState::Idle, say(KEY_UPDATED))
        } else {
            (GlobalState::UpdatingKey, say(KEY_UPDATE_FAILED))
        },
        Setting::Endpoint => if stored {
            (GlobalState::Idle, say(ENDPOINT_UPDATED))
        } else {
            (GlobalState::UpdatingApiEndpoint, say(ENDPOINT_UPDATE_FAILED))
        },
    }
}

pub const SEND_PHOTO: &'static str = "Send me the photo you would like to post! Leave a funny comment if you feel like so~";

/// Takes the choice of what to post. Without data, or with data that names
/// no kind, nothing happens (`None`). Choosing a gallery post starts
/// collecting its messages. Posting an update is not offered yet: the
/// caller stops there, and this step is not asked.
pub fn post_callback_step(data: Option<&str>) -> (r: Option<(GlobalState, Reply)>)
    requires
        data matches Some(d) ==> spec_post_kind_named(d@) != Some(PostKind::Update),
    ensures
        match data {
            Some(d) => match spec_post_kind_named(d@) {
                Some(_) => r matches Some((g, rep)) && g == GlobalState::PreparingGalleryPost && reply_is(
                    rep,
                    SEND_PHOTO@,
                    Keyboard::DoneCancel,
                ),
                None => r is None,
            },
            None => r is None,
        },
{
    match data {
        Some(d) => match PostKind::from_name(d) {
            Some(PostKind::Gallery) => Some((GlobalState::PreparingGalleryPost, say_with(SEND_PHOTO, Keyboard::DoneCancel))),
            Some(PostKind::Update) => None,
            None => None,
        },
        None => None,
    }
}

pub const ASK_MODEL_KEY: &'static str = "Send me your API key. Sensitive data will be erased afterwards.";

pub const MODEL_READY: &'static str = "Perfect! Now you can post with VLM generating captions.";

pub const MODEL_REFUSED: &'static str = "Your choice of model / key combination seems not legit. At testflight, an error was returned. Refer to the console for details.";

/// What to do with a text sent while setting up a vision model.
#[derive(Debug)]
pub enum VisionModelStep {
    /// The text is the model's name: store these settings, send the reply,
    /// and wait for the key (state `Key`).
    AskKey { config: Configuration, reply: Reply },
    /// The text is the key: delete the user's message, then test the model
    /// of this name with the key and go on with `vision_model_tested`.
    Test { name: String },
    /// The text is the key, but no model name is stored: delete the user's
    /// message and stop.
    NoName,
}

/// Takes a text sent while setting up a vision model, given the stored
/// settings (or the defaults).
pub fn vision_model_step(state: UpdateVisionModelState, old: Configuration, text: &str) -> (r: VisionModelStep)
    ensures
        match state {
            UpdateVisionModelState::Name => r matches VisionModelStep::AskKey { config, reply } && config@ == (
            ConfigurationView { vision_model_name: Some(text@), ..old@ }) && reply_is(reply, ASK_MODEL_KEY@, Keyboard::Keep),
            UpdateVisionModelState::Key => match old@.vision_model_name {
                Some(n) => r matches VisionModelStep::Test { name } && name@ == n,
                None => r is NoName,
            },
        },
{
    match state {
        UpdateVisionModelState::Name => VisionModelStep::AskKey {
            config: old.with_vision_model_name(text),
            reply: say(ASK_MODEL_KEY),
        },
        UpdateVisionModelState::Key => match old.vision_model_name {
            Some(name) => VisionModelStep::Test { name },
            None => VisionModelStep::NoName,
        },
    }
}

/// Reports the test of a vision model. `answered` says whether the model
/// answered at all (what it answered does not matter). Either way the setup
/// ends: its dialogue is left and the user goes back to the global state in
/// the result, idle. Only a model that answered has its key stored: the
/// settings to store come first in the result.
pub fn vision_model_tested(old: Configuration, key: &str, answered: bool) -> (r: (Option<Configuration>, Reply, GlobalState))
    ensures
        answered ==> (r.0 matches Some(c) && c@ == (ConfigurationView { vision_model_key: Some(key@), ..old@ })),
        answered ==> reply_is(r.1, MODEL_READY@, Keyboard::Keep),
        !answered ==> r.0 is None && reply_is(r.1, MODEL_REFUSED@, Keyboard::Keep),
        r.2 is Idle,
{
    if answered {
        (Some(old.with_vision_model_key(key)), say(MODEL_READY), GlobalState::Idle)
    } else {
        (None, say(MODEL_REFUSED), GlobalState::Idle)
    }
}

} // verus!
