use telecontrol::assistant::CaptionError;
use telecontrol::dialog::{Keyboard, Reply};
use telecontrol::gallery::{GalleryCollectableCompensate, GalleryCollectableMediaKind, GalleryError, GalleryItem};
use telecontrol::gallery_flow::{
    caption_generated, caption_model_step, caption_request_step, gallery_message_step, gallery_parsed, publish_end, publish_failed, publish_stage,
    review_gallery_step, CaptionModelStep, CaptionRequestStep, GalleryInput, GalleryMessageStep, PublishEnd, ReviewGalleryStep,
};
use telecontrol::image::{FileMeta, Image, ImageError, ImageSource, MediaDocument, MediaPhoto, PhotoSize};
use telecontrol::state::{GlobalState, PostGalleryState};
use telecontrol::upload::{PublishError, State, UploadError};
use telecontrol::user::Configuration;

fn texts(replies: &[Reply]) -> Vec<(&str, Keyboard)> {
    replies.iter().map(|r| (r.text.as_str(), r.keyboard)).collect()
}

fn meta(id: &str) -> FileMeta {
    FileMeta { id: id.to_string(), unique_id: format!("u-{id}") }
}

fn text(t: &str) -> GalleryCollectableMediaKind {
    GalleryCollectableMediaKind::Text(t.to_string())
}

fn doc(id: &str) -> GalleryCollectableMediaKind {
    GalleryCollectableMediaKind::Document(MediaDocument { file: meta(id), caption: None })
}

fn item(tweet: Option<&str>) -> GalleryItem {
    GalleryItem {
        photo: Image { source: ImageSource::LocalFile("/tmp/p.png".to_string()), alt_text: "a cat".to_string() },
        tweet: tweet.map(|t| t.to_string()),
        locale: None,
    }
}

fn model() -> Option<Configuration> {
    Some(Configuration {
        post_auth_key: None,
        endpoint: None,
        vision_model_name: Some("m".to_string()),
        vision_model_key: Some("k".to_string()),
    })
}

#[test]
fn first_message_starts_the_collection() {
    match gallery_message_step(PostGalleryState::Idle, GalleryInput::Text("hello".to_string())) {
        GalleryMessageStep::Next { gallery: PostGalleryState::Collecting(v), global, replies } => {
            assert_eq!(v, vec![text("hello")]);
            assert_eq!(global, GlobalState::PreparingGalleryPost);
            assert!(replies.is_empty());
        },
        other => panic!("{:?}", other),
    }
    let photo = MediaPhoto { photo: vec![PhotoSize { file: meta("p"), width: 2, height: 2 }], caption: None };
    match gallery_message_step(PostGalleryState::Collecting(vec![text("a")]), GalleryInput::Photo(photo.clone())) {
        GalleryMessageStep::Next { gallery: PostGalleryState::Collecting(v), .. } => {
            assert_eq!(v, vec![text("a"), GalleryCollectableMediaKind::Photo(photo)]);
        },
        other => panic!("{:?}", other),
    }
}

#[test]
fn done_parses_the_collection_or_complains() {
    match gallery_message_step(PostGalleryState::Collecting(vec![doc("d")]), GalleryInput::Text("Done".to_string())) {
        GalleryMessageStep::Parse(v) => assert_eq!(v, vec![doc("d")]),
        other => panic!("{:?}", other),
    }
    match gallery_message_step(PostGalleryState::Idle, GalleryInput::Text("Done".to_string())) {
        GalleryMessageStep::Next { gallery: PostGalleryState::Idle, global, replies } => {
            assert_eq!(global, GlobalState::PreparingGalleryPost);
            assert_eq!(
                texts(&replies),
                vec![("You have yet sent no material to share. Wanna cancel? Press the button!", Keyboard::Keep)]
            );
        },
        other => panic!("{:?}", other),
    }
}

#[test]
fn cancel_ends_the_conversation() {
    match gallery_message_step(PostGalleryState::Collecting(vec![doc("d")]), GalleryInput::Text("Cancel".to_string())) {
        GalleryMessageStep::Next { gallery: PostGalleryState::Idle, global: GlobalState::Idle, replies } => {
            assert_eq!(texts(&replies), vec![("OK. You may come back anytime.", Keyboard::Remove)]);
        },
        other => panic!("{:?}", other),
    }
}

#[test]
fn gallery_step_awaited_description_takes_only_text() {
    match gallery_message_step(PostGalleryState::AltTextCompensate(vec![doc("d")]), GalleryInput::Text("a dog".to_string())) {
        GalleryMessageStep::Next { gallery: PostGalleryState::Collecting(v), replies, .. } => {
            assert_eq!(
                v,
                vec![doc("d"), GalleryCollectableMediaKind::Compensate(GalleryCollectableCompensate::AltText("a dog".to_string()))]
            );
            assert_eq!(texts(&replies), vec![("Gotcha", Keyboard::Keep)]);
        },
        other => panic!("{:?}", other),
    }
    match gallery_message_step(PostGalleryState::AltTextCompensate(vec![doc("d")]), GalleryInput::Document(MediaDocument {
        file: meta("e"),
        caption: None,
    })) {
        GalleryMessageStep::Next { gallery: PostGalleryState::AltTextCompensate(v), replies, .. } => {
            assert_eq!(v, vec![doc("d")]);
            assert_eq!(texts(&replies), vec![("Only text message is supported. Try again :)", Keyboard::Keep)]);
        },
        other => panic!("{:?}", other),
    }
}

#[test]
fn unsupported_messages_are_ignored() {
    match gallery_message_step(PostGalleryState::Collecting(vec![doc("d")]), GalleryInput::Unsupported) {
        GalleryMessageStep::Next { gallery: PostGalleryState::Collecting(v), replies, .. } => {
            assert_eq!(v, vec![doc("d")]);
            assert_eq!(
                texts(&replies),
                vec![("You just sent something unsupported. I will ignore it for now.", Keyboard::Keep)]
            );
        },
        other => panic!("{:?}", other),
    }
}

#[test]
fn parsed_post_is_presented_for_review() {
    let (state, global, replies) = gallery_parsed(vec![doc("d")], Ok(item(Some("hi"))), false);
    assert!(matches!(state, PostGalleryState::Committed(_)));
    assert_eq!(global, GlobalState::ReviewingGalleryPost);
    assert_eq!(
        texts(&replies),
        vec![
            ("Let's review beforehand.\nYou have an image, whose alt text is:\na cat", Keyboard::Remove),
            ("You also tweeted about it:\nhi", Keyboard::Keep),
            ("How does this look?", Keyboard::GoodBad),
        ]
    );
    let (_, _, replies) = gallery_parsed(vec![doc("d")], Ok(item(None)), false);
    assert_eq!(replies.len(), 2);
}

#[test]
fn missing_description_is_asked_for() {
    let err = Err(GalleryError::PhotoError(ImageError::MissingAltText));
    let (state, global, replies) = gallery_parsed(vec![doc("d")], err.clone(), true);
    assert!(matches!(state, PostGalleryState::AltTextCompensate(ref v) if *v == vec![doc("d")]));
    assert_eq!(global, GlobalState::PreparingGalleryPost);
    assert_eq!(
        texts(&replies),
        vec![("This photo doesn't have a caption. Send me one, or use the VLM to generate!", Keyboard::Generate)]
    );
    let (_, _, replies) = gallery_parsed(vec![doc("d")], err, false);
    assert_eq!(
        texts(&replies),
        vec![("The photo doesn't have a caption. Send me one! Describe the content of the image in brief.", Keyboard::Keep)]
    );
}

#[test]
fn other_failures_keep_the_collection() {
    let (state, _, replies) = gallery_parsed(vec![doc("d")], Err(GalleryError::DuplicatedTweet), true);
    assert!(matches!(state, PostGalleryState::Collecting(ref v) if *v == vec![doc("d")]));
    assert_eq!(
        texts(&replies),
        vec![("From the dialog, we have duplicated tweet. With that in mind, try again!", Keyboard::Keep)]
    );
}

#[test]
fn gallery_review_buttons() {
    assert!(matches!(review_gallery_step(PostGalleryState::Committed(item(None)), None), ReviewGalleryStep::Ignore));
    match review_gallery_step(PostGalleryState::Idle, Some("Good")) {
        ReviewGalleryStep::NothingToReview(r) => assert_eq!(
            r.text,
            "You don't have anything to review yet! Are you using a hacked client or something?"
        ),
        other => panic!("{:?}", other),
    }
    match review_gallery_step(PostGalleryState::Committed(item(None)), Some("Good")) {
        ReviewGalleryStep::Publish { reply, item } => {
            assert_eq!(reply.text, "Perfect! I will create the post for ya");
            assert_eq!(item.photo.alt_text, "a cat");
        },
        other => panic!("{:?}", other),
    }
    match review_gallery_step(PostGalleryState::Committed(item(None)), Some("Bad")) {
        ReviewGalleryStep::Drop { reply, .. } => assert_eq!(
            reply.text,
            "No pressures! I will forget what you have posted. Tell me if you have anything new!"
        ),
        other => panic!("{:?}", other),
    }
    assert!(matches!(
        review_gallery_step(PostGalleryState::Committed(item(None)), Some("Maybe")),
        ReviewGalleryStep::Unknown
    ));
}

#[test]
fn publishing_stages() {
    let (id, r) = publish_stage(-1, State::UploadingImage);
    assert_eq!(id, -1);
    assert_eq!(texts(&[r.unwrap()]), vec![("Uploading photo...", Keyboard::Remove)]);
    let (id, r) = publish_stage(-1, State::CreatingPost);
    assert_eq!((id, r.unwrap().text.as_str()), (-1, "Creating content..."));
    let (id, r) = publish_stage(-1, State::Completed(42));
    assert_eq!(id, 42);
    assert!(r.is_none());
    let r = publish_failed(&PublishError::PushPhoto(UploadError::Io("the server is down".to_string())));
    assert_eq!(
        texts(&[r]),
        vec![(
            "Oops, I encountered an error where push photo failed to handle files: the server is down. Press the buttons to retry? Better luck next time!",
            Keyboard::GoodBad
        )]
    );
}

#[test]
fn generate_button() {
    assert!(matches!(caption_request_step(None, PostGalleryState::Idle), CaptionRequestStep::Ignore));
    match caption_request_step(Some("Other"), PostGalleryState::Idle) {
        CaptionRequestStep::Answer(r) => assert_eq!(r.text, "Unknown query data. Are you using a hacked client?"),
        other => panic!("{:?}", other),
    }
    assert!(matches!(
        caption_request_step(Some("Generate"), PostGalleryState::Collecting(vec![doc("d")])),
        CaptionRequestStep::NotAwaited
    ));
    match caption_request_step(Some("Generate"), PostGalleryState::AltTextCompensate(vec![doc("d")])) {
        CaptionRequestStep::ReadSettings(v) => assert_eq!(v, vec![doc("d")]),
        other => panic!("{:?}", other),
    }
}

#[test]
fn generate_picks_first_image_and_model() {
    assert!(matches!(caption_model_step(vec![doc("d")], None), CaptionModelStep::Ignore));
    let no_key = Some(Configuration {
        post_auth_key: None,
        endpoint: None,
        vision_model_name: Some("m".to_string()),
        vision_model_key: None,
    });
    assert!(matches!(caption_model_step(vec![doc("d")], no_key), CaptionModelStep::Ignore));
    match caption_model_step(vec![text("t"), doc("d")], model()) {
        CaptionModelStep::Generate { media, file, model_name, model_key } => {
            assert_eq!(media.len(), 2);
            assert_eq!(file.id, "d");
            assert_eq!((model_name.as_str(), model_key.as_str()), ("m", "k"));
        },
        other => panic!("{:?}", other),
    }
    match caption_model_step(vec![text("t")], model()) {
        CaptionModelStep::Answer(r) => assert_eq!(
            r.text,
            "There's no photo to caption on. Did you just clicked a button from previous dialogs? Silly"
        ),
        other => panic!("{:?}", other),
    }
    let empty = GalleryCollectableMediaKind::Photo(MediaPhoto { photo: vec![], caption: None });
    match caption_model_step(vec![empty], model()) {
        CaptionModelStep::Failed(e) => assert_eq!(e, ImageError::EmptyMedia),
        other => panic!("{:?}", other),
    }
}

#[test]
fn caption_generated_joins_the_collection() {
    let (state, reply) = caption_generated(vec![doc("d")], Ok("a bird".to_string()));
    match state {
        PostGalleryState::Collecting(v) => assert_eq!(
            v,
            vec![doc("d"), GalleryCollectableMediaKind::Compensate(GalleryCollectableCompensate::AltText("a bird".to_string()))]
        ),
        other => panic!("{:?}", other),
    }
    assert_eq!(
        reply.text,
        "So the VLM came up with the following caption:\na bird\n\nI have modified your request. Press the \"Done\" button if that seems appropriate."
    );
    let (state, reply) = caption_generated(vec![doc("d")], Err(CaptionError::UnknownImageType));
    assert!(matches!(state, PostGalleryState::AltTextCompensate(ref v) if *v == vec![doc("d")]));
    assert_eq!(reply.text, "I had trouble determining image type. You may refer to the console for more details.");
}

#[test]
fn published_post_ends_the_conversation() {
    match publish_end(item(None), "https://site.org/api", Ok(42)) {
        PublishEnd::Finish { reply, gallery, global, dispose } => {
            assert_eq!(
                texts(&[reply]),
                vec![("The post has been created~ Check it out! https://site.org/gallery/42", Keyboard::Keep)]
            );
            assert!(matches!(gallery, PostGalleryState::Idle));
            assert!(matches!(global, GlobalState::Idle));
            assert_eq!(dispose, ImageSource::LocalFile("/tmp/p.png".to_string()));
        }
        other => panic!("unexpected {other:?}"),
    }
    match publish_end(item(None), "https://site.org/api", Ok(-1)) {
        PublishEnd::Finish { reply, .. } => assert_eq!(reply.text, "The post has been created~"),
        other => panic!("unexpected {other:?}"),
    }
}

#[test]
fn failed_publication_keeps_the_post_under_review() {
    let error = PublishError::CreatePost("409".to_string());
    match publish_end(item(Some("hi")), "https://site.org/api", Err(error)) {
        PublishEnd::Retry { reply, state } => {
            assert_eq!(
                texts(&[reply]),
                vec![(
                    "Oops, I encountered an error where post creation failed: 409. Press the buttons to retry? Better luck next time!",
                    Keyboard::GoodBad
                )]
            );
            match state {
                PostGalleryState::Committed(i) => {
                    assert_eq!(i.tweet.as_deref(), Some("hi"));
                    assert_eq!(i.photo.alt_text, "a cat");
                }
                other => panic!("unexpected {other:?}"),
            }
        }
        other => panic!("unexpected {other:?}"),
    }
}
