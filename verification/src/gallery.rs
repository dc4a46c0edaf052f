//! Turning the messages a user collected into one gallery post: which text is
//! the tweet, which image is posted and with what description, and which
//! locale the post is in.

use vstd::prelude::*;
use vstd::string::StringExecFns;

use crate::image::{self as img, FileMeta, MediaDocument, MediaPhoto, best_size_index, spec_alt_text};
use crate::locale::{
    spec_all_locales, spec_language_of, spec_locale_of, AllCases, FromLanguage, FromSupportedLocale,
    Language, SupportedLocale,
};
use crate::text::{clone_opt, opt_view};

verus! {

/// What to do when a kind of content turns up more than once.
#[derive(Clone, Copy, Debug, PartialEq, Eq, Structural)]
pub enum DuplicationResolutionPolicy {
    /// Refuse the post.
    Error,
    /// Keep the first one.
    UseFirst,
    /// Keep the last one.
    UseLast,
    /// Join them, one per line (only texts can be joined).
    Concatenate,
}

impl Default for DuplicationResolutionPolicy {
    fn default() -> (r: Self)
        ensures
            r == DuplicationResolutionPolicy::Error,
    {
        DuplicationResolutionPolicy::Error
    }
}

/// How duplicated photos and duplicated tweets are resolved.
#[derive(Clone, Copy, Debug, PartialEq, Eq, Structural)]
pub struct ParseMediaConfigurations {
    pub photo_duplication: DuplicationResolutionPolicy,
    pub tweet_duplication: DuplicationResolutionPolicy,
}

impl Default for ParseMediaConfigurations {
    fn default() -> (r: Self)
        ensures
            r.photo_duplication == DuplicationResolutionPolicy::Error,
            r.tweet_duplication == DuplicationResolutionPolicy::Error,
    {
        ParseMediaConfigurations {
            photo_duplication: DuplicationResolutionPolicy::Error,
            tweet_duplication: DuplicationResolutionPolicy::Error,
        }
    }
}

/// What the user adds to make up for missing parts of a post.
#[derive(Clone, Debug, PartialEq, Eq)]
pub enum GalleryCollectableCompensate {
    /// A description for the image.
    AltText(String),
    /// The locale of the post.
    Locale(SupportedLocale),
}

/// One message collected for a gallery post.
#[derive(Clone, Debug, PartialEq, Eq)]
pub enum GalleryCollectableMediaKind {
    Text(String),
    Photo(MediaPhoto),
    Document(MediaDocument),
    Compensate(GalleryCollectableCompensate),
}

/// A post that is ready to be sent.
#[derive(Clone, Debug)]
pub struct GalleryItem {
    pub photo: img::Image,
    pub tweet: Option<String>,
    pub locale: Option<SupportedLocale>,
}

/// Why the collected messages do not make a post.
#[derive(Clone, Debug, PartialEq, Eq)]
pub enum GalleryError {
    MissingPhoto,
    IncompatibleDuplicationResolutionPolicy,
    DuplicatedTweet,
    DuplicatedPhoto,
    PhotoError(img::ImageError),
}

/// A download that the post needs: the file of the collected message at
/// `medium`, to be described by `alt_text`.
#[derive(Clone, Debug)]
pub struct PlannedFetch {
    pub medium: usize,
    pub file: FileMeta,
    pub alt_text: String,
}

/// The parts of a post that do not need a download.
#[derive(Clone, Debug)]
pub struct PlannedPost {
    pub tweet: Option<String>,
    pub locale: Option<SupportedLocale>,
}

/// How the collected messages become a post. The downloads in `fetches` are
/// made in order, and the first that fails ends the post with that failure.
/// If none fails, `outcome` decides: an error, or the post, whose image is the
/// one the last download gave, described by that download's `alt_text`.
#[derive(Debug)]
pub struct GalleryPlan {
    pub fetches: Vec<PlannedFetch>,
    pub outcome: Result<PlannedPost, GalleryError>,
}

/// The abstract value of a planned download.
pub struct FetchView {
    pub medium: int,
    pub id: Seq<char>,
    pub unique_id: Seq<char>,
    pub alt_text: Seq<char>,
}

/// The state of the scan over the collected messages: the downloads so far,
/// the tweet so far, and the error that stopped the scan, if any.
pub struct ScanState {
    pub fetches: Seq<FetchView>,
    pub tweet: Option<Seq<char>>,
    pub error: Option<GalleryError>,
}

pub open spec fn fetch_view(f: PlannedFetch) -> FetchView {
    FetchView {
        medium: f.medium as int,
        id: f.file.id@,
        unique_id: f.file.unique_id@,
        alt_text: f.alt_text@,
    }
}

/// The description that the user added last, if any.
pub open spec fn spec_last_alt_text(media: Seq<GalleryCollectableMediaKind>) -> Option<Seq<char>>
    decreases media.len(),
{
    if media.len() == 0 {
        None
    } else {
        match media.last() {
            GalleryCollectableMediaKind::Compensate(GalleryCollectableCompensate::AltText(t)) => Some(t@),
            _ => spec_last_alt_text(media.drop_last()),
        }
    }
}

/// The locale that the user set last, if any.
pub open spec fn spec_last_locale(media: Seq<GalleryCollectableMediaKind>) -> Option<SupportedLocale>
    decreases media.len(),
{
    if media.len() == 0 {
        None
    } else {
        match media.last() {
            GalleryCollectableMediaKind::Compensate(GalleryCollectableCompensate::Locale(l)) => Some(l),
            _ => spec_last_locale(media.drop_last()),
        }
    }
}

/// The download that an image message asks for, or why it cannot be made.
pub open spec fn spec_fetch_of(
    i: int,
    m: GalleryCollectableMediaKind,
    alt: Option<Seq<char>>,
) -> Result<FetchView, img::ImageError> {
    match m {
        GalleryCollectableMediaKind::Photo(p) => match spec_alt_text(alt, opt_view(p.caption)) {
            Err(e) => Err(e),
            Ok(a) => match best_size_index(p.photo@) {
                None => Err(img::ImageError::EmptyMedia),
                Some(b) => Ok(
                    FetchView {
                        medium: i,
                        id: p.photo@[b].file.id@,
                        unique_id: p.photo@[b].file.unique_id@,
                        alt_text: a,
                    },
                ),
            },
        },
        GalleryCollectableMediaKind::Document(d) => match spec_alt_text(alt, opt_view(d.caption)) {
            Err(e) => Err(e),
            Ok(a) => Ok(FetchView { medium: i, id: d.file.id@, unique_id: d.file.unique_id@, alt_text: a }),
        },
        _ => Err(img::ImageError::EmptyMedia),
    }
}

/// The scan state after also adding the download of message `i`.
pub open spec fn spec_add_fetch(
    st: ScanState,
    i: int,
    m: GalleryCollectableMediaKind,
    alt: Option<Seq<char>>,
) -> ScanState {
    match spec_fetch_of(i, m, alt) {
        Ok(f) => ScanState { fetches: st.fetches.push(f), ..st },
        Err(e) => ScanState { error: Some(GalleryError::PhotoError(e)), ..st },
    }
}

/// One step of the scan: message `i` is `m`.
pub open spec fn spec_scan_step(
    st: ScanState,
    i: int,
    m: GalleryCollectableMediaKind,
    config: ParseMediaConfigurations,
    alt: Option<Seq<char>>,
) -> ScanState {
    match m {
        GalleryCollectableMediaKind::Text(t) => match st.tweet {
            None => ScanState { tweet: Some(t@), ..st },
            Some(old) => match config.tweet_duplication {
                DuplicationResolutionPolicy::Error => ScanState { error: Some(GalleryError::DuplicatedTweet), ..st },
                DuplicationResolutionPolicy::UseFirst => st,
                DuplicationResolutionPolicy::UseLast => ScanState { tweet: Some(t@), ..st },
                DuplicationResolutionPolicy::Concatenate => ScanState {
                    tweet: Some(old + seq!['\n'] + t@),
                    ..st
                },
            },
        },
        GalleryCollectableMediaKind::Photo(_) | GalleryCollectableMediaKind::Document(_) => {
            if st.fetches.len() == 0 {
                spec_add_fetch(st, i, m, alt)
            } else {
                match config.photo_duplication {
                    DuplicationResolutionPolicy::Error => ScanState { error: Some(GalleryError::DuplicatedPhoto), ..st },
                    DuplicationResolutionPolicy::UseFirst => st,
                    DuplicationResolutionPolicy::UseLast => spec_add_fetch(st, i, m, alt),
                    DuplicationResolutionPolicy::Concatenate => ScanState {
                        error: Some(GalleryError::IncompatibleDuplicationResolutionPolicy),
                        ..st
                    },
                }
            }
        },
        GalleryCollectableMediaKind::Compensate(_) => st,
    }
}

/// The scan over the messages in the order they were collected; it stops at
/// the first error.
pub open spec fn spec_scan(
    media: Seq<GalleryCollectableMediaKind>,
    config: ParseMediaConfigurations,
    alt: Option<Seq<char>>,
) -> ScanState
    decreases media.len(),
{
    if media.len() == 0 {
        ScanState { fetches: Seq::empty(), tweet: None, error: None }
    } else {
        let prev = spec_scan(media.drop_last(), config, alt);
        if prev.error is Some {
            prev
        } else {
            spec_scan_step(prev, media.len() - 1, media.last(), config, alt)
        }
    }
}

/// The downloads of the plan for `media`.
pub open spec fn spec_plan_fetches(
    media: Seq<GalleryCollectableMediaKind>,
    config: ParseMediaConfigurations,
) -> Seq<FetchView> {
    if config.photo_duplication == DuplicationResolutionPolicy::Concatenate {
        Seq::empty()
    } else {
        spec_scan(media, config, spec_last_alt_text(media)).fetches
    }
}

/// The outcome of the plan for `media`: an error, or the tweet and locale.
pub open spec fn spec_plan_outcome(
    media: Seq<GalleryCollectableMediaKind>,
    config: ParseMediaConfigurations,
) -> Result<(Option<Seq<char>>, Option<SupportedLocale>), GalleryError> {
    if config.photo_duplication == DuplicationResolutionPolicy::Concatenate {
        Err(GalleryError::IncompatibleDuplicationResolutionPolicy)
    } else {
        let st = spec_scan(media, config, spec_last_alt_text(media));
        match st.error {
            Some(e) => Err(e),
            None => if st.fetches.len() == 0 {
                Err(GalleryError::MissingPhoto)
            } else {
                Ok((st.tweet, spec_last_locale(media)))
            },
        }
    }
}

/// Once the scan has stopped on an error, later messages change nothing.
pub proof fn lemma_scan_stops(
    media: Seq<GalleryCollectableMediaKind>,
    k: int,
    config: ParseMediaConfigurations,
    alt: Option<Seq<char>>,
)
    requires
        0 <= k <= media.len(),
        spec_scan(media.take(k), config, alt).error is Some,
    ensures
        spec_scan(media, config, alt) == spec_scan(media.take(k), config, alt),
    decreases media.len(),
{
    if k < media.len() {
        assert(media.drop_last().take(k) =~= media.take(k));
        lemma_scan_stops(media.drop_last(), k, config, alt);
    } else {
        assert(media.take(k) =~= media);
    }
}

/// The latest description and locale that the user added.
fn collect_compensations(media: &Vec<GalleryCollectableMediaKind>) -> (r: (Option<String>, Option<SupportedLocale>))
    ensures
        opt_view(r.0) == spec_last_alt_text(media@),
        r.1 == spec_last_locale(media@),
{
    let mut alt_text: Option<String> = None;
    let mut locale: Option<SupportedLocale> = None;
    let n = media.len();
    let mut i: usize = 0;
    while i < n
        invariant
            n == media@.len(),
            i <= n,
            opt_view(alt_text) == spec_last_alt_text(media@.take(i as int)),
            locale == spec_last_locale(media@.take(i as int)),
        decreases n - i,
    {
        assert(media@.take(i as int + 1).drop_last() =~= media@.take(i as int));
        assert(media@.take(i as int + 1).last() == media@[i as int]);
        match &media[i] {
            GalleryCollectableMediaKind::Compensate(GalleryCollectableCompensate::AltText(t)) => {
                alt_text = Some(t.clone());
            },
            GalleryCollectableMediaKind::Compensate(GalleryCollectableCompensate::Locale(l)) => {
                locale = Some(*l);
            },
            _ => {},
        }
        i = i + 1;
    }
    assert(media@.take(n as int) =~= media@);
    (alt_text, locale)
}

/// The download that an image message asks for, or why it cannot be made.
fn fetch_of(i: usize, m: &GalleryCollectableMediaKind, alt: &Option<String>) -> (r: Result<PlannedFetch, img::ImageError>)
    requires
        m is Photo || m is Document,
    ensures
        match r {
            Ok(f) => spec_fetch_of(i as int, *m, opt_view(*alt)) == Ok::<FetchView, img::ImageError>(fetch_view(f)),
            Err(e) => spec_fetch_of(i as int, *m, opt_view(*alt)) == Err::<FetchView, img::ImageError>(e),
        },
{
    match m {
        GalleryCollectableMediaKind::Photo(p) => match img::Image::parse_media_photo(p, alt) {
            Ok((file, alt_text)) => Ok(PlannedFetch { medium: i, file, alt_text }),
            Err(e) => Err(e),
        },
        GalleryCollectableMediaKind::Document(d) => match img::Image::parse_media_document(d, alt) {
            Ok((file, alt_text)) => Ok(PlannedFetch { medium: i, file, alt_text }),
            Err(e) => Err(e),
        },
        _ => Err(img::ImageError::EmptyMedia),
    }
}

impl GalleryItem {
    /// Plans the post that the collected messages make. Descriptions and the
    /// locale that the user added apply to the whole post, the last one of
    /// each counting. Texts make the tweet and photos or documents the image,
    /// duplicates resolved by `config`; photos cannot be joined, so that
    /// policy is refused for them before anything else.
    pub fn parse_media(media: &Vec<GalleryCollectableMediaKind>, config: ParseMediaConfigurations) -> (r: GalleryPlan)
        ensures
            r.fetches@.map_values(|f: PlannedFetch| fetch_view(f)) == spec_plan_fetches(media@, config),
            match r.outcome {
                Ok(p) => spec_plan_outcome(media@, config)
                    == Ok::<(Option<Seq<char>>, Option<SupportedLocale>), GalleryError>((opt_view(p.tweet), p.locale)),
                Err(e) => spec_plan_outcome(media@, config)
                    == Err::<(Option<Seq<char>>, Option<SupportedLocale>), GalleryError>(e),
            },
    {
        let (alt_text, locale) = collect_compensations(media);
        if config.photo_duplication == DuplicationResolutionPolicy::Concatenate {
            let fetches: Vec<PlannedFetch> = Vec::new();
            assert(fetches@.map_values(|f: PlannedFetch| fetch_view(f)) =~= Seq::<FetchView>::empty());
            return GalleryPlan { fetches, outcome: Err(GalleryError::IncompatibleDuplicationResolutionPolicy) };
        }
        let ghost alt = spec_last_alt_text(media@);
        let mut tweet: Option<String> = None;
        let mut fetches: Vec<PlannedFetch> = Vec::new();
        let n = media.len();
        let mut i: usize = 0;
        assert(fetches@.map_values(|f: PlannedFetch| fetch_view(f)) =~= Seq::<FetchView>::empty());
        while i < n
            invariant
                n == media@.len(),
                i <= n,
                opt_view(alt_text) == alt,
                alt == spec_last_alt_text(media@),
                config.photo_duplication != DuplicationResolutionPolicy::Concatenate,
                spec_scan(media@.take(i as int), config, alt).error is None,
                spec_scan(media@.take(i as int), config, alt).tweet == opt_view(tweet),
                spec_scan(media@.take(i as int), config, alt).fetches
                    == fetches@.map_values(|f: PlannedFetch| fetch_view(f)),
            decreases n - i,
        {
            let ghost prev = spec_scan(media@.take(i as int), config, alt);
            let ghost next = spec_scan(media@.take(i as int + 1), config, alt);
            assert(media@.take(i as int + 1).drop_last() =~= media@.take(i as int));
            assert(media@.take(i as int + 1).last() == media@[i as int]);
            assert(next == spec_scan_step(prev, i as int, media@[i as int], config, alt));
            let m = &media[i];
            match m {
                GalleryCollectableMediaKind::Text(t) => {
                    match &tweet {
                        None => {
                            tweet = Some(t.clone());
                        },
                        Some(old) => {
                            match config.tweet_duplication {
                                DuplicationResolutionPolicy::Error => {
                                    proof {
                                        assert(next.error == Some(GalleryError::DuplicatedTweet));
                                        assert(next.fetches == prev.fetches);
                                        lemma_scan_stops(media@, i as int + 1, config, alt);
                                    }
                                    let fs = fetches;
                                    return GalleryPlan { fetches: fs, outcome: Err(GalleryError::DuplicatedTweet) };
                                },
                                DuplicationResolutionPolicy::UseFirst => {},
                                DuplicationResolutionPolicy::UseLast => {
                                    tweet = Some(t.clone());
                                },
                                DuplicationResolutionPolicy::Concatenate => {
                                    let mut joined = old.clone();
                                    joined.append("\n");
                                    joined.append(t.as_str());
                                    proof {
                                        reveal_strlit("\n");
                                        assert("\n"@ =~= seq!['\n']);
                                    }
                                    tweet = Some(joined);
                                },
                            }
                        },
                    }
                },
                GalleryCollectableMediaKind::Photo(_) | GalleryCollectableMediaKind::Document(_) => {
                    let take = if fetches.len() == 0 {
                        true
                    } else {
                        match config.photo_duplication {
                            DuplicationResolutionPolicy::Error => {
                                proof {
                                    lemma_scan_stops(media@, i as int + 1, config, alt);
                                }
                                let fs = fetches;
                                return GalleryPlan { fetches: fs, outcome: Err(GalleryError::DuplicatedPhoto) };
                            },
                            DuplicationResolutionPolicy::UseFirst => false,
                            DuplicationResolutionPolicy::UseLast => true,
                            DuplicationResolutionPolicy::Concatenate => {
                                proof {
                                    lemma_scan_stops(media@, i as int + 1, config, alt);
                                }
                                let fs = fetches;
                                return GalleryPlan {
                                    fetches: fs,
                                    outcome: Err(GalleryError::IncompatibleDuplicationResolutionPolicy),
                                };
                            },
                        }
                    };
                    if take {
                        match fetch_of(i, m, &alt_text) {
                            Ok(f) => {
                                let ghost before = fetches@;
                                fetches.push(f);
                                assert(fetches@.map_values(|f: PlannedFetch| fetch_view(f))
                                    =~= before.map_values(|f: PlannedFetch| fetch_view(f)).push(fetch_view(f)));
                            },
                            Err(e) => {
                                proof {
                                    lemma_scan_stops(media@, i as int + 1, config, alt);
                                }
                                let fs = fetches;
                                return GalleryPlan { fetches: fs, outcome: Err(GalleryError::PhotoError(e)) };
                            },
                        }
                    }
                },
                GalleryCollectableMediaKind::Compensate(_) => {},
            }
            i = i + 1;
        }
        assert(media@.take(n as int) =~= media@);
        if fetches.len() == 0 {
            GalleryPlan { fetches, outcome: Err(GalleryError::MissingPhoto) }
        } else {
            GalleryPlan { fetches, outcome: Ok(PlannedPost { tweet, locale }) }
        }
    }
}


/// The language that the detector built for `languages` finds in `text`, as
/// `lingua`'s `LanguageDetector::detect_language_of` gives it; `None` when it
/// cannot tell.
pub uninterp spec fn detected_language(languages: Seq<Language>, text: Seq<char>) -> Option<Language>;

/// Builds a `lingua` detector for `languages` and calls
/// `detect_language_of` on `text`. Claims only that the result is the one
/// `detected_language` names. The detector needs at least one language.
#[verifier::external_body]
fn detect_language(languages: &Vec<Language>, text: &str) -> (r: Option<Language>)
    requires
        languages@.len() > 0,
    ensures
        r == detected_language(languages@, text@),
{
    let langs: Vec<lingua::Language> = languages.iter().map(|l| match l {
        Language::English => lingua::Language::English,
        Language::Chinese => lingua::Language::Chinese,
    }).collect();
    let detected = lingua::LanguageDetectorBuilder::from_languages(&langs).build().detect_language_of(text);
    detected.map(|l| match l {
        lingua::Language::English => Language::English,
        lingua::Language::Chinese => Language::Chinese,
    })
}

/// The languages of all locales, in the order of the locales.
pub open spec fn spec_detector_languages() -> Seq<Language> {
    spec_all_locales().map_values(|l: SupportedLocale| spec_language_of(l))
}

/// The locale of a post: the one the user set, else the one detected in the
/// tweet, if there is a tweet.
pub open spec fn spec_post_locale(set: Option<SupportedLocale>, tweet: Option<Seq<char>>) -> Option<SupportedLocale> {
    match set {
        Some(l) => Some(l),
        None => match tweet {
            Some(t) => match detected_language(spec_detector_languages(), t) {
                Some(lang) => Some(spec_locale_of(lang)),
                None => None,
            },
            None => None,
        },
    }
}

impl GalleryItem {
    /// The post that a plan makes with the image that its last download
    /// gave. Without a locale set by the user, the locale is detected from
    /// the tweet.
    pub fn finish(post: PlannedPost, photo: img::Image) -> (r: GalleryItem)
        ensures
            r.photo == photo,
            opt_view(r.tweet) == opt_view(post.tweet),
            r.locale == spec_post_locale(post.locale, opt_view(post.tweet)),
    {
        let locale = match post.locale {
            Some(l) => Some(l),
            None => match &post.tweet {
                Some(t) => {
                    let all = SupportedLocale::all_cases();
                    let mut languages: Vec<Language> = Vec::new();
                    let mut i: usize = 0;
                    while i < all.len()
                        invariant
                            all@ == spec_all_locales(),
                            i <= all@.len(),
                            languages@ == all@.take(i as int).map_values(|l: SupportedLocale| spec_language_of(l)),
                        decreases all@.len() - i,
                    {
                        languages.push(Language::from_supported_locale(all[i]));
                        assert(all@.take(i as int + 1).map_values(|l: SupportedLocale| spec_language_of(l))
                            =~= all@.take(i as int).map_values(|l: SupportedLocale| spec_language_of(l)).push(spec_language_of(all@[i as int])));
                        i = i + 1;
                    }
                    assert(all@.take(all@.len() as int) =~= all@);
                    match detect_language(&languages, t.as_str()) {
                        Some(lang) => Some(SupportedLocale::from_language(lang)),
                        None => None,
                    }
                },
                None => None,
            },
        };
        GalleryItem { photo, tweet: post.tweet, locale }
    }
}


/// A plan that makes a post downloads at least one image.
pub proof fn lemma_ok_plan_has_photo(media: Seq<GalleryCollectableMediaKind>, config: ParseMediaConfigurations)
    ensures
        spec_plan_outcome(media, config) is Ok ==> spec_plan_fetches(media, config).len() >= 1,
{
}

proof fn lemma_scan_single_fetch(
    media: Seq<GalleryCollectableMediaKind>,
    config: ParseMediaConfigurations,
    alt: Option<Seq<char>>,
)
    requires
        config.photo_duplication != DuplicationResolutionPolicy::UseLast,
    ensures
        spec_scan(media, config, alt).fetches.len() <= 1,
    decreases media.len(),
{
    if media.len() > 0 {
        lemma_scan_single_fetch(media.drop_last(), config, alt);
    }
}

/// Unless later photos replace earlier ones, at most one image is
/// downloaded.
pub proof fn lemma_at_most_one_download(media: Seq<GalleryCollectableMediaKind>, config: ParseMediaConfigurations)
    requires
        config.photo_duplication != DuplicationResolutionPolicy::UseLast,
    ensures
        spec_plan_fetches(media, config).len() <= 1,
{
    lemma_scan_single_fetch(media, config, spec_last_alt_text(media));
}

proof fn lemma_scan_ignores_compensations(
    media: Seq<GalleryCollectableMediaKind>,
    c: GalleryCollectableCompensate,
    config: ParseMediaConfigurations,
    alt: Option<Seq<char>>,
)
    ensures
        spec_scan(media.push(GalleryCollectableMediaKind::Compensate(c)), config, alt) == spec_scan(media, config, alt),
{
    let m2 = media.push(GalleryCollectableMediaKind::Compensate(c));
    assert(m2.drop_last() =~= media);
}

/// Adding a locale at the end changes only the post's locale: the
/// downloads, the tweet and any error stay as they were.
pub proof fn lemma_added_locale_only_sets_locale(
    media: Seq<GalleryCollectableMediaKind>,
    l: SupportedLocale,
    config: ParseMediaConfigurations,
)
    ensures
        ({
            let m2 = media.push(GalleryCollectableMediaKind::Compensate(GalleryCollectableCompensate::Locale(l)));
            &&& spec_plan_fetches(m2, config) == spec_plan_fetches(media, config)
            &&& match (spec_plan_outcome(media, config), spec_plan_outcome(m2, config)) {
                (Ok((t1, _)), Ok((t2, l2))) => t1 == t2 && l2 == Some(l),
                (Err(e1), Err(e2)) => e1 == e2,
                _ => false,
            }
        }),
{
    let m2 = media.push(GalleryCollectableMediaKind::Compensate(GalleryCollectableCompensate::Locale(l)));
    assert(m2.drop_last() =~= media);
    assert(spec_last_alt_text(m2) == spec_last_alt_text(media));
    lemma_scan_ignores_compensations(media, GalleryCollectableCompensate::Locale(l), config, spec_last_alt_text(media));
}

/// The texts among the collected messages, in the order they were sent.
pub open spec fn spec_texts(media: Seq<GalleryCollectableMediaKind>) -> Seq<Seq<char>>
    decreases media.len(),
{
    if media.len() == 0 {
        Seq::empty()
    } else {
        match media.last() {
            GalleryCollectableMediaKind::Text(t) => spec_texts(media.drop_last()).push(t@),
            _ => spec_texts(media.drop_last()),
        }
    }
}

/// Texts joined one per line.
pub open spec fn spec_lines(texts: Seq<Seq<char>>) -> Seq<char>
    decreases texts.len(),
{
    if texts.len() <= 1 {
        if texts.len() == 0 { Seq::empty() } else { texts[0] }
    } else {
        spec_lines(texts.drop_last()) + seq!['\n'] + texts.last()
    }
}

/// The tweet that the texts `texts` make under the tweet policy `policy`:
/// none without a text, else the first text (the only one allowed when
/// duplicates are refused), the last one, or all of them one per line.
pub open spec fn spec_tweet_of_texts(texts: Seq<Seq<char>>, policy: DuplicationResolutionPolicy) -> Option<Seq<char>> {
    if texts.len() == 0 {
        None
    } else {
        match policy {
            DuplicationResolutionPolicy::Error | DuplicationResolutionPolicy::UseFirst => Some(texts[0]),
            DuplicationResolutionPolicy::UseLast => Some(texts.last()),
            DuplicationResolutionPolicy::Concatenate => Some(spec_lines(texts)),
        }
    }
}

proof fn lemma_scan_tweet(
    media: Seq<GalleryCollectableMediaKind>,
    config: ParseMediaConfigurations,
    alt: Option<Seq<char>>,
)
    ensures
        spec_scan(media, config, alt).error is None ==> spec_scan(media, config, alt).tweet
            == spec_tweet_of_texts(spec_texts(media), config.tweet_duplication),
        spec_scan(media, config, alt).error is None && config.tweet_duplication == DuplicationResolutionPolicy::Error
            ==> spec_texts(media).len() <= 1,
    decreases media.len(),
{
    if media.len() > 0 {
        let prefix = media.drop_last();
        lemma_scan_tweet(prefix, config, alt);
        let ts = spec_texts(prefix);
        match media.last() {
            GalleryCollectableMediaKind::Text(t) => {
                let ts2 = ts.push(t@);
                assert(ts2[0] == if ts.len() == 0 { t@ } else { ts[0] });
                assert(ts2.drop_last() =~= ts);
            },
            _ => {},
        }
    }
}

/// The tweet of a post is made from the texts the user sent, whatever their
/// places among the photos and documents: none without a text, the first
/// text when duplicates are refused or the first is kept (a post with
/// duplicated texts is then refused or keeps the first), the last when the
/// last is kept, and all of them one per line when they are joined. In
/// particular, a post made from messages holding exactly one text has that
/// text as its tweet.
pub proof fn lemma_tweet_is_made_of_the_texts(media: Seq<GalleryCollectableMediaKind>, config: ParseMediaConfigurations)
    ensures
        match spec_plan_outcome(media, config) {
            Ok((tweet, _)) => tweet == spec_tweet_of_texts(spec_texts(media), config.tweet_duplication),
            Err(_) => true,
        },
        match spec_plan_outcome(media, config) {
            Ok((tweet, _)) => spec_texts(media).len() == 1 ==> tweet == Some(spec_texts(media)[0]),
            Err(_) => true,
        },
        spec_plan_outcome(media, config) is Ok && config.tweet_duplication == DuplicationResolutionPolicy::Error
            ==> spec_texts(media).len() <= 1,
{
    lemma_scan_tweet(media, config, spec_last_alt_text(media));
}

impl img::ImageSource {
    /// The file to download for a collected message: a photo's largest size
    /// or a document's file; other messages hold no image.
    pub fn from_gallery_collectable(collectable: &GalleryCollectableMediaKind) -> (r: Result<Option<FileMeta>, img::ImageError>)
        ensures
            match r {
                Ok(Some(f)) => spec_collectable_file(*collectable) == Ok::<Option<(Seq<char>, Seq<char>)>, img::ImageError>(Some((f.id@, f.unique_id@))),
                Ok(None) => spec_collectable_file(*collectable) == Ok::<Option<(Seq<char>, Seq<char>)>, img::ImageError>(None),
                Err(e) => spec_collectable_file(*collectable) == Err::<Option<(Seq<char>, Seq<char>)>, img::ImageError>(e),
            },
    {
        match collectable {
            GalleryCollectableMediaKind::Photo(p) => match img::ImageSource::from_media_photo(p) {
                Ok(f) => Ok(Some(f)),
                Err(e) => Err(e),
            },
            GalleryCollectableMediaKind::Document(d) => Ok(Some(img::ImageSource::from_media_document(d))),
            _ => Ok(None),
        }
    }
}

/// The file of a collected message, if it holds an image.
pub open spec fn spec_collectable_file(m: GalleryCollectableMediaKind) -> Result<Option<(Seq<char>, Seq<char>)>, img::ImageError> {
    match m {
        GalleryCollectableMediaKind::Photo(p) => match img::spec_photo_file(p) {
            Ok(f) => Ok(Some(f)),
            Err(e) => Err(e),
        },
        GalleryCollectableMediaKind::Document(d) => Ok(Some((d.file.id@, d.file.unique_id@))),
        _ => Ok(None),
    }
}

/// The image that a caption is generated for: the first message that holds
/// an image (its largest size, for a photo).
pub open spec fn spec_caption_target(media: Seq<GalleryCollectableMediaKind>) -> Result<Option<(Seq<char>, Seq<char>)>, img::ImageError>
    decreases media.len(),
{
    if media.len() == 0 {
        Ok(None)
    } else {
        match spec_collectable_file(media[0]) {
            Ok(None) => spec_caption_target(media.drop_first()),
            other => other,
        }
    }
}

/// Finds the image that a caption is generated for.
pub fn caption_target(media: &Vec<GalleryCollectableMediaKind>) -> (r: Result<Option<FileMeta>, img::ImageError>)
    ensures
        match r {
            Ok(Some(f)) => spec_caption_target(media@) == Ok::<Option<(Seq<char>, Seq<char>)>, img::ImageError>(Some((f.id@, f.unique_id@))),
            Ok(None) => spec_caption_target(media@) == Ok::<Option<(Seq<char>, Seq<char>)>, img::ImageError>(None),
            Err(e) => spec_caption_target(media@) == Err::<Option<(Seq<char>, Seq<char>)>, img::ImageError>(e),
        },
{
    let n = media.len();
    let mut i: usize = 0;
    assert(media@.skip(0) =~= media@);
    while i < n
        invariant
            n == media@.len(),
            i <= n,
            spec_caption_target(media@) == spec_caption_target(media@.skip(i as int)),
        decreases n - i,
    {
        assert(media@.skip(i as int)[0] == media@[i as int]);
        assert(media@.skip(i as int).drop_first() =~= media@.skip(i as int + 1));
        let m = &media[i];
        match img::ImageSource::from_gallery_collectable(m) {
            Ok(None) => {},
            other => return other,
        }
        i = i + 1;
    }
    assert(media@.skip(n as int).len() == 0);
    Ok(None)
}

/// How a gallery error reads.
pub open spec fn spec_gallery_error_text(e: GalleryError) -> Seq<char> {
    match e {
        GalleryError::MissingPhoto => "missing image"@,
        GalleryError::IncompatibleDuplicationResolutionPolicy => "incompatible duplication resolution policy"@,
        GalleryError::DuplicatedTweet => "duplicated tweet"@,
        GalleryError::DuplicatedPhoto => "duplicated photo"@,
        GalleryError::PhotoError(i) => "photo error: "@ + img::spec_image_error_text(i),
    }
}

impl GalleryError {
    /// How the error reads.
    pub fn text(&self) -> (r: String)
        ensures
            r@ == spec_gallery_error_text(*self),
    {
        match self {
            GalleryError::MissingPhoto => crate::text::owned("missing image"),
            GalleryError::IncompatibleDuplicationResolutionPolicy => crate::text::owned("incompatible duplication resolution policy"),
            GalleryError::DuplicatedTweet => crate::text::owned("duplicated tweet"),
            GalleryError::DuplicatedPhoto => crate::text::owned("duplicated photo"),
            GalleryError::PhotoError(i) => {
                let mut r = crate::text::owned("photo error: ");
                r.append(i.text().as_str());
                r
            },
        }
    }
}

} // verus!
