use telecontrol::gallery::{GalleryCollectableCompensate, GalleryCollectableMediaKind};
use telecontrol::image::{FileMeta, MediaDocument};
use telecontrol::state::{
    append_to_collecting_state, with_generated_caption, GlobalState, PostGalleryState, UpdateTranslationState,
    UpdateVisionModelState, GOTCHA_REPLY, ONLY_TEXT_REPLY,
};

fn text(t: &str) -> GalleryCollectableMediaKind {
    GalleryCollectableMediaKind::Text(t.to_string())
}

fn doc() -> GalleryCollectableMediaKind {
    GalleryCollectableMediaKind::Document(MediaDocument {
        file: FileMeta { id: "d".to_string(), unique_id: "ud".to_string() },
        caption: None,
    })
}

#[test]
fn defaults() {
    assert_eq!(GlobalState::default(), GlobalState::Idle);
    assert_eq!(UpdateVisionModelState::default(), UpdateVisionModelState::Name);
    assert!(matches!(PostGalleryState::default(), PostGalleryState::Idle));
    assert!(matches!(UpdateTranslationState::<()>::default(), UpdateTranslationState::Idle));
}

#[test]
fn collecting_starts_and_grows() {
    let (s, reply) = append_to_collecting_state(PostGalleryState::Idle, text("a"));
    assert_eq!(reply, None);
    let (s, reply) = append_to_collecting_state(s, doc());
    assert_eq!(reply, None);
    match s {
        PostGalleryState::Collecting(v) => assert_eq!(v, vec![text("a"), doc()]),
        other => panic!("unexpected {other:?}"),
    }
}

#[test]
fn awaited_description_takes_only_text() {
    let (s, reply) = append_to_collecting_state(PostGalleryState::AltTextCompensate(vec![doc()]), doc());
    assert_eq!(reply, Some(ONLY_TEXT_REPLY));
    assert!(matches!(&s, PostGalleryState::AltTextCompensate(v) if v.len() == 1));
    let (s, reply) = append_to_collecting_state(s, text("a dog"));
    assert_eq!(reply, Some(GOTCHA_REPLY));
    match s {
        PostGalleryState::Collecting(v) => assert_eq!(
            v,
            vec![doc(), GalleryCollectableMediaKind::Compensate(GalleryCollectableCompensate::AltText("a dog".to_string()))]
        ),
        other => panic!("unexpected {other:?}"),
    }
}

#[test]
fn generated_caption_is_added() {
    match with_generated_caption(vec![doc()], "cap".to_string()) {
        PostGalleryState::Collecting(v) => assert_eq!(
            v,
            vec![doc(), GalleryCollectableMediaKind::Compensate(GalleryCollectableCompensate::AltText("cap".to_string()))]
        ),
        other => panic!("unexpected {other:?}"),
    }
}
