use telecontrol::gallery::{
    caption_target, DuplicationResolutionPolicy, GalleryCollectableCompensate,
    GalleryCollectableMediaKind, GalleryError, GalleryItem, ParseMediaConfigurations, PlannedPost,
};
use telecontrol::image::{FileMeta, Image, ImageError, ImageSource, MediaDocument, MediaPhoto, PhotoSize};
use telecontrol::locale::SupportedLocale;

fn meta(id: &str) -> FileMeta {
    FileMeta { id: id.to_string(), unique_id: format!("u-{id}") }
}

fn photo(caption: Option<&str>, sizes: &[(&str, u32, u32)]) -> GalleryCollectableMediaKind {
    GalleryCollectableMediaKind::Photo(MediaPhoto {
        photo: sizes
            .iter()
            .map(|(id, w, h)| PhotoSize { file: meta(id), width: *w, height: *h })
            .collect(),
        caption: caption.map(|c| c.to_string()),
    })
}

fn document(caption: Option<&str>, id: &str) -> GalleryCollectableMediaKind {
    GalleryCollectableMediaKind::Document(MediaDocument { file: meta(id), caption: caption.map(|c| c.to_string()) })
}

fn text(t: &str) -> GalleryCollectableMediaKind {
    GalleryCollectableMediaKind::Text(t.to_string())
}

fn alt(t: &str) -> GalleryCollectableMediaKind {
    GalleryCollectableMediaKind::Compensate(GalleryCollectableCompensate::AltText(t.to_string()))
}

fn config(photo: DuplicationResolutionPolicy, tweet: DuplicationResolutionPolicy) -> ParseMediaConfigurations {
    ParseMediaConfigurations { photo_duplication: photo, tweet_duplication: tweet }
}

#[test]
fn default_policies_refuse_duplicates() {
    let c = ParseMediaConfigurations::default();
    assert_eq!(c.photo_duplication, DuplicationResolutionPolicy::Error);
    assert_eq!(c.tweet_duplication, DuplicationResolutionPolicy::Error);
}

#[test]
fn photo_with_caption_and_tweet() {
    let media = vec![photo(Some("a cat"), &[("small", 90, 90), ("big", 800, 800)]), text("hello")];
    let plan = GalleryItem::parse_media(&media, ParseMediaConfigurations::default());
    assert_eq!(plan.fetches.len(), 1);
    assert_eq!(plan.fetches[0].medium, 0);
    assert_eq!(plan.fetches[0].file.id, "big");
    assert_eq!(plan.fetches[0].alt_text, "a cat");
    let post = plan.outcome.unwrap();
    assert_eq!(post.tweet, Some("hello".to_string()));
    assert_eq!(post.locale, None);
}

#[test]
fn added_description_wins_over_caption_and_last_one_counts() {
    let media = vec![alt("first"), document(Some("caption"), "doc"), alt("second")];
    let plan = GalleryItem::parse_media(&media, ParseMediaConfigurations::default());
    assert_eq!(plan.fetches.len(), 1);
    assert_eq!(plan.fetches[0].file.id, "doc");
    assert_eq!(plan.fetches[0].alt_text, "second");
    assert_eq!(plan.outcome.unwrap().tweet, None);
}

#[test]
fn missing_description_is_a_photo_error() {
    let media = vec![photo(None, &[("p", 10, 10)])];
    let plan = GalleryItem::parse_media(&media, ParseMediaConfigurations::default());
    assert!(plan.fetches.is_empty());
    assert_eq!(plan.outcome.unwrap_err(), GalleryError::PhotoError(ImageError::MissingAltText));
}

#[test]
fn photo_without_sizes_is_empty_media() {
    let media = vec![photo(Some("x"), &[])];
    let plan = GalleryItem::parse_media(&media, ParseMediaConfigurations::default());
    assert_eq!(plan.outcome.unwrap_err(), GalleryError::PhotoError(ImageError::EmptyMedia));
}

#[test]
fn no_photo_is_missing_photo() {
    let media = vec![text("only words")];
    let plan = GalleryItem::parse_media(&media, ParseMediaConfigurations::default());
    assert!(plan.fetches.is_empty());
    assert_eq!(plan.outcome.unwrap_err(), GalleryError::MissingPhoto);
    let plan = GalleryItem::parse_media(&vec![], ParseMediaConfigurations::default());
    assert_eq!(plan.outcome.unwrap_err(), GalleryError::MissingPhoto);
}

#[test]
fn joining_photos_is_refused_before_anything() {
    let media = vec![photo(Some("x"), &[("p", 1, 1)])];
    let plan = GalleryItem::parse_media(
        &media,
        config(DuplicationResolutionPolicy::Concatenate, DuplicationResolutionPolicy::Error),
    );
    assert!(plan.fetches.is_empty());
    assert_eq!(plan.outcome.unwrap_err(), GalleryError::IncompatibleDuplicationResolutionPolicy);
}

#[test]
fn duplicated_tweet_policies() {
    let media = vec![photo(Some("x"), &[("p", 1, 1)]), text("a"), text("b")];
    let plan = GalleryItem::parse_media(&media, ParseMediaConfigurations::default());
    assert_eq!(plan.fetches.len(), 1);
    assert_eq!(plan.outcome.unwrap_err(), GalleryError::DuplicatedTweet);

    let first = GalleryItem::parse_media(
        &media,
        config(DuplicationResolutionPolicy::Error, DuplicationResolutionPolicy::UseFirst),
    );
    assert_eq!(first.outcome.unwrap().tweet, Some("a".to_string()));
    let last = GalleryItem::parse_media(
        &media,
        config(DuplicationResolutionPolicy::Error, DuplicationResolutionPolicy::UseLast),
    );
    assert_eq!(last.outcome.unwrap().tweet, Some("b".to_string()));
    let joined = GalleryItem::parse_media(
        &media,
        config(DuplicationResolutionPolicy::Error, DuplicationResolutionPolicy::Concatenate),
    );
    assert_eq!(joined.outcome.unwrap().tweet, Some("a\nb".to_string()));
}

#[test]
fn duplicated_photo_policies() {
    let media = vec![photo(Some("one"), &[("p1", 1, 1)]), document(Some("two"), "d2")];
    let plan = GalleryItem::parse_media(&media, ParseMediaConfigurations::default());
    assert_eq!(plan.fetches.len(), 1);
    assert_eq!(plan.outcome.unwrap_err(), GalleryError::DuplicatedPhoto);

    let first = GalleryItem::parse_media(
        &media,
        config(DuplicationResolutionPolicy::UseFirst, DuplicationResolutionPolicy::Error),
    );
    assert_eq!(first.fetches.len(), 1);
    assert_eq!(first.fetches[0].file.id, "p1");
    assert!(first.outcome.is_ok());

    let last = GalleryItem::parse_media(
        &media,
        config(DuplicationResolutionPolicy::UseLast, DuplicationResolutionPolicy::Error),
    );
    assert_eq!(last.fetches.len(), 2);
    assert_eq!(last.fetches[1].medium, 1);
    assert_eq!(last.fetches[1].file.id, "d2");
    assert_eq!(last.fetches[1].alt_text, "two");
    assert!(last.outcome.is_ok());
}

#[test]
fn set_locale_is_kept() {
    let media = vec![
        photo(Some("x"), &[("p", 1, 1)]),
        GalleryCollectableMediaKind::Compensate(GalleryCollectableCompensate::Locale(SupportedLocale::Zh)),
        GalleryCollectableMediaKind::Compensate(GalleryCollectableCompensate::Locale(SupportedLocale::En)),
    ];
    let plan = GalleryItem::parse_media(&media, ParseMediaConfigurations::default());
    assert_eq!(plan.outcome.unwrap().locale, Some(SupportedLocale::En));
}

fn image() -> Image {
    Image { source: ImageSource::Url("https://example.com/a.png".to_string()), alt_text: "a".to_string() }
}

#[test]
fn finish_keeps_set_locale() {
    let item = GalleryItem::finish(
        PlannedPost { tweet: Some("hello there".to_string()), locale: Some(SupportedLocale::En) },
        image(),
    );
    assert_eq!(item.locale, Some(SupportedLocale::En));
    assert_eq!(item.tweet, Some("hello there".to_string()));
    assert_eq!(item.photo.alt_text, "a");
}

#[test]
fn finish_without_tweet_has_no_locale() {
    let item = GalleryItem::finish(PlannedPost { tweet: None, locale: None }, image());
    assert_eq!(item.locale, None);
}

#[test]
fn finish_detects_chinese_tweet() {
    let item = GalleryItem::finish(
        PlannedPost { tweet: Some("今天天气很好，我们一起去公园散步吧。".to_string()), locale: None },
        image(),
    );
    assert_eq!(item.locale, Some(SupportedLocale::Zh));
}

#[test]
fn finish_detects_english_tweet_as_mapped() {
    let item = GalleryItem::finish(
        PlannedPost {
            tweet: Some("The weather is lovely today, let us take a walk in the park together.".to_string()),
            locale: None,
        },
        image(),
    );
    // English maps to Traditional Chinese in the locale mapping.
    assert_eq!(item.locale, Some(SupportedLocale::ZhTw));
}

#[test]
fn caption_target_is_first_image() {
    let media = vec![text("t"), document(None, "doc"), photo(None, &[("p", 5, 5)])];
    assert_eq!(caption_target(&media).unwrap().unwrap().id, "doc");
    let media = vec![photo(None, &[("s", 1, 1), ("l", 9, 9)]), document(None, "doc")];
    assert_eq!(caption_target(&media).unwrap().unwrap().id, "l");
    let media = vec![photo(None, &[]), document(None, "doc")];
    assert_eq!(caption_target(&media).unwrap_err(), ImageError::EmptyMedia);
    assert!(caption_target(&vec![text("t")]).unwrap().is_none());
}
