//! The dialogue states of the bot, and how collecting a gallery post moves
//! between them.

use vstd::prelude::*;

use crate::gallery::{GalleryCollectableCompensate, GalleryCollectableMediaKind, GalleryItem};
use crate::locale::SupportedLocale;
use crate::models::{UpdatePost, UpdatePutRequest};

verus! {

/// Where a user's conversation with the bot stands.
#[derive(Clone, Copy, Debug, PartialEq, Eq, Structural)]
pub enum GlobalState {
    Idle,
    PostRequestd,
    PreparingGalleryPost,
    ReviewingGalleryPost,
    UpdatingKey,
    UpdatingApiEndpoint,
    UpdatingVisionModel,
    TranslationRequested,
    PreparingUpdateTranslation,
    ReviewingUpdateTranslation,
}

impl Default for GlobalState {
    fn default() -> (r: Self)
        ensures
            r == GlobalState::Idle,
    {
        GlobalState::Idle
    }
}

/// Where the collection of a gallery post stands.
#[derive(Clone, Debug)]
pub enum PostGalleryState {
    Idle,
    Collecting(Vec<GalleryCollectableMediaKind>),
    AltTextCompensate(Vec<GalleryCollectableMediaKind>),
    Committed(GalleryItem),
}

impl Default for PostGalleryState {
    fn default() -> (r: Self)
        ensures
            r is Idle,
    {
        PostGalleryState::Idle
    }
}

/// Which part of the vision model the user sends next.
#[derive(Clone, Copy, Debug, PartialEq, Eq, Structural)]
pub enum UpdateVisionModelState {
    Name,
    Key,
}

impl Default for UpdateVisionModelState {
    fn default() -> (r: Self)
        ensures
            r == UpdateVisionModelState::Name,
    {
        UpdateVisionModelState::Name
    }
}

/// Where the translation of an update post stands.
#[derive(Clone, Debug)]
pub enum UpdateTranslationState<M> {
    Idle,
    Selected(UpdatePost<M>),
    Translated { selected_post: UpdatePost<M>, posts: Vec<UpdatePutRequest<M>>, failed: Vec<SupportedLocale> },
}

impl<M> Default for UpdateTranslationState<M> {
    fn default() -> (r: Self)
        ensures
            r is Idle,
    {
        UpdateTranslationState::Idle
    }
}

/// The reply when only a text can make up for a missing description.
pub const ONLY_TEXT_REPLY: &'static str = "Only text message is supported. Try again :)";

/// The reply when a description was added.
pub const GOTCHA_REPLY: &'static str = "Gotcha";

/// The collected messages after one more message arrives: the first message
/// starts the collection; while a description is awaited, a text becomes the
/// description and other messages are refused.
pub open spec fn spec_append(state: PostGalleryState, m: GalleryCollectableMediaKind) -> Option<Seq<GalleryCollectableMediaKind>> {
    match state {
        PostGalleryState::Idle => Some(seq![m]),
        PostGalleryState::Collecting(ms) => Some(ms@.push(m)),
        PostGalleryState::AltTextCompensate(ms) => match m {
            GalleryCollectableMediaKind::Text(t) => Some(
                ms@.push(GalleryCollectableMediaKind::Compensate(GalleryCollectableCompensate::AltText(t))),
            ),
            _ => None,
        },
        PostGalleryState::Committed(_) => None,
    }
}

/// Adds a message to the post being collected. Returns the new state and
/// the reply to send, if any; a refused message leaves the state as it was.
/// A committed post takes no more messages.
pub fn append_to_collecting_state(state: PostGalleryState, m: GalleryCollectableMediaKind) -> (r: (PostGalleryState, Option<&'static str>))
    requires
        !(state is Committed),
    ensures
        match spec_append(state, m) {
            Some(ms) => r.0 matches PostGalleryState::Collecting(v) && v@ == ms,
            None => r.0 == state && r.1 == Some(ONLY_TEXT_REPLY),
        },
        state is AltTextCompensate && m is Text ==> r.1 == Some(GOTCHA_REPLY),
        !(state is AltTextCompensate) ==> r.1 is None,
{
    match state {
        PostGalleryState::Idle => {
            let mut v: Vec<GalleryCollectableMediaKind> = Vec::new();
            v.push(m);
            assert(v@ =~= seq![m]);
            (PostGalleryState::Collecting(v), None)
        },
        PostGalleryState::Collecting(mut ms) => {
            ms.push(m);
            (PostGalleryState::Collecting(ms), None)
        },
        PostGalleryState::AltTextCompensate(mut ms) => {
            match m {
                GalleryCollectableMediaKind::Text(t) => {
                    ms.push(GalleryCollectableMediaKind::Compensate(GalleryCollectableCompensate::AltText(t)));
                    (PostGalleryState::Collecting(ms), Some(GOTCHA_REPLY))
                },
                other => (PostGalleryState::AltTextCompensate(ms), Some(ONLY_TEXT_REPLY)),
            }
        },
        PostGalleryState::Committed(item) => (PostGalleryState::Committed(item), None),
    }
}


/// The collection after a generated caption is accepted: the caption is
/// added as the image's description and collecting goes on.
pub fn with_generated_caption(media: Vec<GalleryCollectableMediaKind>, caption: String) -> (r: PostGalleryState)
    ensures
        r matches PostGalleryState::Collecting(v) && v@ == media@.push(
            GalleryCollectableMediaKind::Compensate(GalleryCollectableCompensate::AltText(caption)),
        ),
{
    let mut media = media;
    media.push(GalleryCollectableMediaKind::Compensate(GalleryCollectableCompensate::AltText(caption)));
    PostGalleryState::Collecting(media)
}

} // verus!
