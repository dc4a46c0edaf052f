//! The conversation that makes a gallery post: collecting the user's
//! messages, turning them into a post, making up for a missing description,
//! and the review that publishes or drops the post.

use vstd::prelude::*;

use crate::assistant::{caption_trouble, CaptionError};
use crate::bot::{
    caption_failure_message, gallery_error_message, generated_caption_message, missing_alt_text_prompt, review_intro,
    review_tweet, classify_gallery_text, classify_review, GalleryText, Review,
};
use crate::dialog::{reply_is, replies_are, say, say_with, Keyboard, Reply};
use crate::gallery::{
    caption_target, spec_caption_target, spec_gallery_error_text, GalleryCollectableCompensate, GalleryCollectableMediaKind,
    GalleryError, GalleryItem,
};
use crate::image::{FileMeta, ImageError, ImageSource, MediaDocument, MediaPhoto};
use crate::state::{append_to_collecting_state, spec_append, with_generated_caption, GlobalState, PostGalleryState, GOTCHA_REPLY, ONLY_TEXT_REPLY};
use crate::upload::{progress_message, spec_publish_error_text, PublishError, State};
use crate::user::{gallery_created_message, spec_gallery_created_message, Configuration, ConfigurationView};

verus! {

/// A message sent while a gallery post is collected.
#[derive(Debug)]
pub enum GalleryInput {
    Text(String),
    Photo(MediaPhoto),
    Document(MediaDocument),
    /// Any other kind of message.
    Unsupported,
}

/// What to do after a message sent while a gallery post is collected.
#[derive(Debug)]
pub enum GalleryMessageStep {
    /// Turn these collected messages into a post (`GalleryItem::parse_media`
    /// and its downloads), then go on with `gallery_parsed`. The states stay.
    Parse(Vec<GalleryCollectableMediaKind>),
    /// Move to these states and send the replies.
    Next { gallery: PostGalleryState, global: GlobalState, replies: Vec<Reply> },
}

pub const DONE: &'static str = "Done";

pub const CANCEL: &'static str = "Cancel";

pub const NO_MATERIAL: &'static str = "You have yet sent no material to share. Wanna cancel? Press the button!";

pub const CANCELLED: &'static str = "OK. You may come back anytime.";

pub const UNSUPPORTED: &'static str = "You just sent something unsupported. I will ignore it for now.";

/// The collected message that an input makes, if it is one: a text other
/// than "Done" and "Cancel", a photo or a document.
pub open spec fn spec_collected(input: GalleryInput) -> Option<GalleryCollectableMediaKind> {
    match input {
        GalleryInput::Text(t) => if t@ == DONE@ || t@ == CANCEL@ {
            None
        } else {
            Some(GalleryCollectableMediaKind::Text(t))
        },
        GalleryInput::Photo(p) => Some(GalleryCollectableMediaKind::Photo(p)),
        GalleryInput::Document(d) => Some(GalleryCollectableMediaKind::Document(d)),
        GalleryInput::Unsupported => None,
    }
}

/// The reply to a collected message, if any: while a description is
/// awaited, a text is taken with thanks and anything else is refused.
pub open spec fn spec_append_replies(state: PostGalleryState, m: GalleryCollectableMediaKind) -> Seq<(Seq<char>, Keyboard)> {
    if state is AltTextCompensate {
        if m is Text {
            seq![(GOTCHA_REPLY@, Keyboard::Keep)]
        } else {
            seq![(ONLY_TEXT_REPLY@, Keyboard::Keep)]
        }
    } else {
        Seq::empty()
    }
}

/// Takes a message sent while a gallery post is collected. "Done" turns
/// the collection into a post; without a collection the user is told so.
/// "Cancel" drops everything and ends the conversation. Texts, photos and
/// documents are collected (`append_to_collecting_state`); anything else is
/// ignored with a note. A post already made takes no more messages.
pub fn gallery_message_step(state: PostGalleryState, input: GalleryInput) -> (r: GalleryMessageStep)
    requires
        spec_collected(input) is Some ==> !(state is Committed),
    ensures
        input matches GalleryInput::Text(t) && t@ == DONE@ ==> match state {
            PostGalleryState::Collecting(ms) => r matches GalleryMessageStep::Parse(v) && v@ == ms@,
            _ => r matches GalleryMessageStep::Next { gallery, global, replies } && gallery == state && global
                == GlobalState::PreparingGalleryPost && replies_are(replies@, seq![(NO_MATERIAL@, Keyboard::Keep)]),
        },
        input matches GalleryInput::Text(t) && t@ == CANCEL@ ==> (r matches GalleryMessageStep::Next {
            gallery,
            global,
            replies,
        } && gallery is Idle && global == GlobalState::Idle && replies_are(replies@, seq![(CANCELLED@, Keyboard::Remove)])),
        input is Unsupported ==> (r matches GalleryMessageStep::Next { gallery, global, replies } && gallery == state
            && global == GlobalState::PreparingGalleryPost && replies_are(replies@, seq![(UNSUPPORTED@, Keyboard::Keep)])),
        spec_collected(input) matches Some(m) ==> (r matches GalleryMessageStep::Next { gallery, global, replies }
            && global == GlobalState::PreparingGalleryPost && replies_are(replies@, spec_append_replies(state, m))
            && match spec_append(state, m) {
            Some(ms) => gallery matches PostGalleryState::Collecting(v) && v@ == ms,
            None => gallery == state,
        }),
{
    let m = match input {
        GalleryInput::Text(t) => match classify_gallery_text(t.as_str()) {
            GalleryText::Done => {
                proof {
                    reveal_strlit("Done");
                    reveal_strlit("Cancel");
                    assert(DONE@[0] != CANCEL@[0]);
                }
                return match state {
                    PostGalleryState::Collecting(ms) => GalleryMessageStep::Parse(ms),
                    other => {
                        let mut replies: Vec<Reply> = Vec::new();
                        replies.push(say(NO_MATERIAL));
                        GalleryMessageStep::Next { gallery: other, global: GlobalState::PreparingGalleryPost, replies }
                    },
                };
            },
            GalleryText::Cancel => {
                let mut replies: Vec<Reply> = Vec::new();
                replies.push(say_with(CANCELLED, Keyboard::Remove));
                return GalleryMessageStep::Next { gallery: PostGalleryState::Idle, global: GlobalState::Idle, replies };
            },
            GalleryText::Content => GalleryCollectableMediaKind::Text(t),
        },
        GalleryInput::Photo(p) => GalleryCollectableMediaKind::Photo(p),
        GalleryInput::Document(d) => GalleryCollectableMediaKind::Document(d),
        GalleryInput::Unsupported => {
            let mut replies: Vec<Reply> = Vec::new();
            replies.push(say(UNSUPPORTED));
            return GalleryMessageStep::Next { gallery: state, global: GlobalState::PreparingGalleryPost, replies };
        },
    };
    let ghost before = state;
    let (gallery, reply) = append_to_collecting_state(state, m);
    let mut replies: Vec<Reply> = Vec::new();
    match reply {
        Some(text) => replies.push(say(text)),
        None => {},
    }
    assert(replies_are(replies@, spec_append_replies(before, m)));
    GalleryMessageStep::Next { gallery, global: GlobalState::PreparingGalleryPost, replies }
}

pub const HOW_DOES_IT_LOOK: &'static str = "How does this look?";

/// The replies that present a post for review: the description (taking the
/// reply keyboard away), the tweet if there is one, and the question with
/// the buttons "Good" and "Bad".
pub open spec fn spec_review_replies(item: GalleryItem) -> Seq<(Seq<char>, Keyboard)> {
    let intro = ("Let's review beforehand.\nYou have an image, whose alt text is:\n"@ + item.photo.alt_text@, Keyboard::Remove);
    let question = (HOW_DOES_IT_LOOK@, Keyboard::GoodBad);
    match item.tweet {
        Some(t) => seq![intro, ("You also tweeted about it:\n"@ + t@, Keyboard::Keep), question],
        None => seq![intro, question],
    }
}

/// Goes on after the collected messages were turned into a post (or not).
/// A post is presented for review. A missing description is asked for, with
/// the offer to generate one when a vision model is set up. Any other
/// failure is reported and the collection stays as it was.
pub fn gallery_parsed(
    media: Vec<GalleryCollectableMediaKind>,
    result: Result<GalleryItem, GalleryError>,
    has_vision_model: bool,
) -> (r: (PostGalleryState, GlobalState, Vec<Reply>))
    ensures
        match result {
            Ok(item) => r.0 == PostGalleryState::Committed(item) && r.1 == GlobalState::ReviewingGalleryPost
                && replies_are(r.2@, spec_review_replies(item)),
            Err(GalleryError::PhotoError(ImageError::MissingAltText)) => (r.0 matches PostGalleryState::AltTextCompensate(v)
                && v@ == media@) && r.1 == GlobalState::PreparingGalleryPost && replies_are(
                r.2@,
                seq![
                    (if has_vision_model {
                        "This photo doesn't have a caption. Send me one, or use the VLM to generate!"@
                    } else {
                        "The photo doesn't have a caption. Send me one! Describe the content of the image in brief."@
                    }, if has_vision_model { Keyboard::Generate } else { Keyboard::Keep }),
                ],
            ),
            Err(e) => (r.0 matches PostGalleryState::Collecting(v) && v@ == media@) && r.1 == GlobalState::PreparingGalleryPost
                && replies_are(
                r.2@,
                seq![("From the dialog, we have "@ + spec_gallery_error_text(e) + ". With that in mind, try again!"@, Keyboard::Keep)],
            ),
        },
{
    let mut replies: Vec<Reply> = Vec::new();
    match result {
        Ok(item) => {
            replies.push(Reply { text: review_intro(item.photo.alt_text.as_str()), keyboard: Keyboard::Remove });
            match &item.tweet {
                Some(t) => replies.push(Reply { text: review_tweet(t.as_str()), keyboard: Keyboard::Keep }),
                None => {},
            }
            replies.push(say_with(HOW_DOES_IT_LOOK, Keyboard::GoodBad));
            (PostGalleryState::Committed(item), GlobalState::ReviewingGalleryPost, replies)
        },
        Err(GalleryError::PhotoError(ImageError::MissingAltText)) => {
            let keyboard = if has_vision_model { Keyboard::Generate } else { Keyboard::Keep };
            replies.push(say_with(missing_alt_text_prompt(has_vision_model), keyboard));
            (PostGalleryState::AltTextCompensate(media), GlobalState::PreparingGalleryPost, replies)
        },
        Err(e) => {
            replies.push(Reply { text: gallery_error_message(&e), keyboard: Keyboard::Keep });
            (PostGalleryState::Collecting(media), GlobalState::PreparingGalleryPost, replies)
        },
    }
}

pub const NOTHING_TO_REVIEW: &'static str = "You don't have anything to review yet! Are you using a hacked client or something?";

pub const WILL_PUBLISH: &'static str = "Perfect! I will create the post for ya";

pub const DROPPED: &'static str = "No pressures! I will forget what you have posted. Tell me if you have anything new!";

/// What to do with a button pressed while a gallery post is reviewed.
#[derive(Debug)]
pub enum ReviewGalleryStep {
    /// The button carried no data: nothing happens.
    Ignore,
    /// No post is under review: send the reply and answer the button.
    NothingToReview(Reply),
    /// "Good": send the reply, answer the button, and publish the post,
    /// following its stages with `publish_stage`. A failure is reported with
    /// `publish_failed` and the post stays under review; after success,
    /// `gallery_created_message` is sent, the conversation ends and the image
    /// is disposed of.
    Publish { reply: Reply, item: GalleryItem },
    /// "Bad": send the reply, answer the button, end the conversation and
    /// dispose of the image.
    Drop { reply: Reply, item: GalleryItem },
    /// Any other data: nothing happens.
    Unknown,
}

/// Takes a button pressed while a gallery post is reviewed; `state` is the
/// stored state of the post (its default when none is stored).
pub fn review_gallery_step(state: PostGalleryState, data: Option<&str>) -> (r: ReviewGalleryStep)
    ensures
        match data {
            None => r is Ignore,
            Some(d) => match state {
                PostGalleryState::Committed(item) => if d@ == "Good"@ {
                    r matches ReviewGalleryStep::Publish { reply, item: i } && i == item && reply_is(reply, WILL_PUBLISH@, Keyboard::Keep)
                } else if d@ == "Bad"@ {
                    r matches ReviewGalleryStep::Drop { reply, item: i } && i == item && reply_is(reply, DROPPED@, Keyboard::Keep)
                } else {
                    r is Unknown
                },
                _ => r matches ReviewGalleryStep::NothingToReview(reply) && reply_is(reply, NOTHING_TO_REVIEW@, Keyboard::Keep),
            },
        },
{
    match data {
        None => ReviewGalleryStep::Ignore,
        Some(d) => match state {
            PostGalleryState::Committed(item) => match classify_review(d) {
                Review::Good => ReviewGalleryStep::Publish { reply: say(WILL_PUBLISH), item },
                Review::Bad => ReviewGalleryStep::Drop { reply: say(DROPPED), item },
                Review::Unknown => ReviewGalleryStep::Unknown,
            },
            _ => ReviewGalleryStep::NothingToReview(say(NOTHING_TO_REVIEW)),
        },
    }
}

/// Follows one stage of publishing: the stages before the end are
/// announced (taking the reply keyboard away), and the last one gives the
/// id of the new post. `gallery_id` is the id known so far (-1 at first).
pub fn publish_stage(gallery_id: i32, stage: State) -> (r: (i32, Option<Reply>))
    ensures
        match stage {
            State::UploadingImage => r.0 == gallery_id && (r.1 matches Some(rep) && reply_is(rep, "Uploading photo..."@, Keyboard::Remove)),
            State::CreatingPost => r.0 == gallery_id && (r.1 matches Some(rep) && reply_is(rep, "Creating content..."@, Keyboard::Remove)),
            State::Completed(id) => r.0 == id && r.1 is None,
        },
{
    let id = match stage {
        State::Completed(id) => id,
        _ => gallery_id,
    };
    match progress_message(stage) {
        Some(text) => (id, Some(say_with(text, Keyboard::Remove))),
        None => (id, None),
    }
}

/// Reports a failed publication, with the buttons to try again or drop
/// the post.
pub fn publish_failed(error: &PublishError) -> (r: Reply)
    ensures
        reply_is(
            r,
            "Oops, I encountered an error where "@ + spec_publish_error_text(*error)
                + ". Press the buttons to retry? Better luck next time!"@,
            Keyboard::GoodBad,
        ),
{
    let mut text = crate::text::owned("Oops, I encountered an error where ");
    text.append(error.text().as_str());
    text.append(". Press the buttons to retry? Better luck next time!");
    Reply { text, keyboard: Keyboard::GoodBad }
}

/// What follows the publication of a gallery post.
#[derive(Debug)]
pub enum PublishEnd {
    /// Publishing failed: send the reply; the post stays under review in
    /// `state`, and its image is kept for another try.
    Retry { reply: Reply, state: PostGalleryState },
    /// The post was created: send the reply (a failure to send it does not
    /// matter), move to these states, which end the conversation, and
    /// dispose of the image `dispose`.
    Finish { reply: Reply, gallery: PostGalleryState, global: GlobalState, dispose: ImageSource },
}

/// Decides what follows the publication of `item`: `outcome` is the id of
/// the new post (as `publish_stage` tracked it) or the error that stopped
/// publishing; `endpoint` is the user's API endpoint.
pub fn publish_end(item: GalleryItem, endpoint: &str, outcome: Result<i32, PublishError>) -> (r: PublishEnd)
    ensures
        match outcome {
            Ok(id) => r matches PublishEnd::Finish { reply, gallery, global, dispose } && reply_is(
                reply,
                spec_gallery_created_message(endpoint@, id),
                Keyboard::Keep,
            ) && gallery is Idle && global is Idle && dispose == item.photo.source,
            Err(e) => r matches PublishEnd::Retry { reply, state } && reply_is(
                reply,
                "Oops, I encountered an error where "@ + spec_publish_error_text(e)
                    + ". Press the buttons to retry? Better luck next time!"@,
                Keyboard::GoodBad,
            ) && state == PostGalleryState::Committed(item),
        },
{
    match outcome {
        Ok(id) => PublishEnd::Finish {
            reply: Reply { text: gallery_created_message(endpoint, id), keyboard: Keyboard::Keep },
            gallery: PostGalleryState::Idle,
            global: GlobalState::Idle,
            dispose: item.photo.source,
        },
        Err(e) => PublishEnd::Retry { reply: publish_failed(&e), state: PostGalleryState::Committed(item) },
    }
}

pub const GENERATE: &'static str = "Generate";

pub const NO_PHOTO_TO_CAPTION: &'static str = "There's no photo to caption on. Did you just clicked a button from previous dialogs? Silly";

pub const UNKNOWN_QUERY: &'static str = "Unknown query data. Are you using a hacked client?";

/// What to do with a button pressed while a gallery post is collected.
#[derive(Debug)]
pub enum CaptionRequestStep {
    /// The button carried no data: nothing happens, and it is not answered.
    Ignore,
    /// Not waiting for a description: only answer the button.
    NotAwaited,
    /// Send the reply and answer the button.
    Answer(Reply),
    /// Read the user's settings and go on with `caption_model_step` with
    /// the collected messages.
    ReadSettings(Vec<GalleryCollectableMediaKind>),
}

/// Takes a button pressed while a gallery post is collected: "Generate"
/// asks for a description of the image by the user's vision model, which
/// is only offered while a description is awaited. `state` is the stored
/// state of the post (its default when none is stored).
pub fn caption_request_step(data: Option<&str>, state: PostGalleryState) -> (r: CaptionRequestStep)
    ensures
        match data {
            None => r is Ignore,
            Some(d) => if d@ != GENERATE@ {
                r matches CaptionRequestStep::Answer(rep) && reply_is(rep, UNKNOWN_QUERY@, Keyboard::Keep)
            } else {
                match state {
                    PostGalleryState::AltTextCompensate(ms) => r matches CaptionRequestStep::ReadSettings(v) && v@ == ms@,
                    _ => r is NotAwaited,
                }
            },
        },
{
    let d = match data {
        None => return CaptionRequestStep::Ignore,
        Some(d) => d,
    };
    if !crate::text::str_eq(d, GENERATE) {
        return CaptionRequestStep::Answer(say(UNKNOWN_QUERY));
    }
    match state {
        PostGalleryState::AltTextCompensate(ms) => CaptionRequestStep::ReadSettings(ms),
        _ => CaptionRequestStep::NotAwaited,
    }
}

/// What to do once the user's settings are read.
#[derive(Debug)]
pub enum CaptionModelStep {
    /// No vision model is set up: nothing happens, and the button is not
    /// answered.
    Ignore,
    /// Send the reply and answer the button.
    Answer(Reply),
    /// The image could not be found among the messages: the handler fails
    /// with this error.
    Failed(ImageError),
    /// Download this file and have the model of this name and key describe
    /// it, then go on with `caption_generated` and answer the button;
    /// `media` are the collected messages.
    Generate { media: Vec<GalleryCollectableMediaKind>, file: FileMeta, model_name: String, model_key: String },
}

/// Picks the image to describe, the first among the collected messages,
/// and the model, from the user's stored settings.
pub fn caption_model_step(media: Vec<GalleryCollectableMediaKind>, config: Option<Configuration>) -> (r: CaptionModelStep)
    ensures
        match config {
            Some(c) => match (c@.vision_model_name, c@.vision_model_key) {
                (Some(name), Some(key)) => match spec_caption_target(media@) {
                    Ok(Some((id, unique_id))) => r matches CaptionModelStep::Generate { media: v, file, model_name, model_key }
                        && v@ == media@ && file.id@ == id && file.unique_id@ == unique_id && model_name@ == name
                        && model_key@ == key,
                    Ok(None) => r matches CaptionModelStep::Answer(rep) && reply_is(rep, NO_PHOTO_TO_CAPTION@, Keyboard::Keep),
                    Err(e) => r == CaptionModelStep::Failed(e),
                },
                _ => r is Ignore,
            },
            None => r is Ignore,
        },
{
    let c = match config {
        Some(c) => c,
        None => return CaptionModelStep::Ignore,
    };
    let (model_name, model_key) = match (c.vision_model_name, c.vision_model_key) {
        (Some(n), Some(k)) => (n, k),
        _ => return CaptionModelStep::Ignore,
    };
    match caption_target(&media) {
        Ok(Some(file)) => CaptionModelStep::Generate { media, file, model_name, model_key },
        Ok(None) => CaptionModelStep::Answer(say(NO_PHOTO_TO_CAPTION)),
        Err(e) => CaptionModelStep::Failed(e),
    }
}

/// Goes on after the model was asked for a description: a description is
/// added to the collection, which the user may now finish; a failure is
/// reported, saying what went wrong, and the description is still awaited.
pub fn caption_generated(media: Vec<GalleryCollectableMediaKind>, result: Result<String, CaptionError>) -> (r: (PostGalleryState, Reply))
    ensures
        match result {
            Ok(caption) => (r.0 matches PostGalleryState::Collecting(v) && v@ == media@.push(
                GalleryCollectableMediaKind::Compensate(GalleryCollectableCompensate::AltText(caption)),
            )) && reply_is(
                r.1,
                "So the VLM came up with the following caption:\n"@ + caption@
                    + "\n\nI have modified your request. Press the \"Done\" button if that seems appropriate."@,
                Keyboard::Keep,
            ),
            Err(e) => (r.0 matches PostGalleryState::AltTextCompensate(v) && v@ == media@) && reply_is(
                r.1,
                "I had trouble "@ + match e {
                    CaptionError::Io(_) => "processing the image file"@,
                    CaptionError::UnknownImageType => "determining image type"@,
                    CaptionError::GenAI(_) => "talking to the LM provider"@,
                } + ". You may refer to the console for more details."@,
                Keyboard::Keep,
            ),
        },
{
    match result {
        Ok(caption) => {
            let text = generated_caption_message(caption.as_str());
            (with_generated_caption(media, caption), Reply { text, keyboard: Keyboard::Keep })
        },
        Err(e) => {
            let text = caption_failure_message(caption_trouble(&e));
            (PostGalleryState::AltTextCompensate(media), Reply { text, keyboard: Keyboard::Keep })
        },
    }
}

} // verus!
