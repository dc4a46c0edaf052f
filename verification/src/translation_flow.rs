//! The conversation that translates an update post: choosing the post,
//! choosing the languages in a poll, reporting the translations, and the
//! review that posts them, drops them, or retries one.

use vstd::prelude::*;

use crate::bot::{
    classify_translation_review, failure_summary, locale_by_code, remove_failed, retry_failed_text, selected_languages,
    spec_locale_by_code, spec_remove_first, spec_retry_failed_text, spec_selected, spec_translation_preview,
    spec_translation_review, spec_untrashed, translation_preview, untrashed_posts, voted_options_named, PollOption,
    PostKind, TranslationReview, spec_post_kind_named,
};
use crate::dialog::{reply_is, replies_are, say, Keyboard, Reply};
use crate::locale::{spec_language_name, SupportedLocale};
use crate::models::{UpdatePost, UpdatePutRequest};
use crate::state::{GlobalState, UpdateTranslationState};
use crate::text::{decimal, i32_to_decimal, lemma_parse_decimal, parse_i32, spec_parse_i32};
use crate::translation::{
    failure_message, spec_failed, spec_failure_reason, spec_succeeded, spec_translated, succeeded_translations,
    failed_locales, TranslationOutcome,
};
use crate::user::{Configuration, ConfigurationView};

verus! {

pub const NO_CHOICE: &'static str = "You didn't choose anything. Are you using a hacked client?";

pub const UNKNOWN_CHOICE: &'static str = "I don't understand your choice. Are you using a hacked client or something? I am so confused :X";

pub const GALLERY_TRANSLATION_LATER: &'static str = "Oops, this feature is not implemented yet! Come back later~";

pub const CHOOSE_POST: &'static str = "Choose one!";

/// Reads the choice of what to translate: the kind of post, or the reply
/// (after which the button is answered) to a choice that names none.
pub fn translate_choice_step(data: Option<&str>) -> (r: Result<PostKind, Reply>)
    ensures
        match data {
            None => r matches Err(rep) && reply_is(rep, NO_CHOICE@, Keyboard::Keep),
            Some(d) => match spec_post_kind_named(d@) {
                None => r matches Err(rep) && reply_is(rep, UNKNOWN_CHOICE@, Keyboard::Keep),
                Some(k) => r == Ok::<PostKind, Reply>(k),
            },
        },
{
    match data {
        None => Err(say(NO_CHOICE)),
        Some(d) => match PostKind::from_name(d) {
            None => Err(say(UNKNOWN_CHOICE)),
            Some(k) => Ok(k),
        },
    }
}

/// What is offered for a kind of post, once the user's settings are known:
/// update posts are listed (`None`: move to `PreparingUpdateTranslation`,
/// fetch the posts, and offer them with `post_choices`); gallery posts
/// cannot be translated yet, which the reply says.
pub fn translation_offer(kind: PostKind) -> (r: Option<Reply>)
    ensures
        match kind {
            PostKind::Update => r is None,
            PostKind::Gallery => r matches Some(rep) && reply_is(rep, GALLERY_TRANSLATION_LATER@, Keyboard::Keep),
        },
{
    match kind {
        PostKind::Update => None,
        PostKind::Gallery => Some(say(GALLERY_TRANSLATION_LATER)),
    }
}

/// The buttons that offer the posts for translation: for each post not in
/// the trash, in order, its title and its id in decimal (the data the button
/// carries).
pub fn post_choices<M: Copy>(posts: &Vec<UpdatePost<M>>) -> (r: Vec<(String, String)>)
    ensures
        r@.len() == spec_untrashed(posts@).len(),
        forall|k: int| 0 <= k < r@.len() ==> {
            let p = posts@[spec_untrashed(posts@)[k]];
            &&& (#[trigger] r@[k]).0@ == p.title@
            &&& r@[k].1@ == decimal(p.id as int)
        },
{
    let keep = untrashed_posts(posts);
    proof {
        assert forall|k: int| 0 <= k < keep@.len() implies keep@[k] < posts@.len() by {
            assert(keep@.map_values(|i: usize| i as int)[k] == spec_untrashed(posts@)[k]);
            lemma_untrashed_in_range(posts@, k);
        }
    }
    let mut r: Vec<(String, String)> = Vec::new();
    let mut k: usize = 0;
    while k < keep.len()
        invariant
            k <= keep@.len(),
            keep@.map_values(|i: usize| i as int) == spec_untrashed(posts@),
            forall|j: int| 0 <= j < keep@.len() ==> keep@[j] < posts@.len(),
            r@.len() == k,
            forall|j: int| 0 <= j < k ==> {
                let p = posts@[spec_untrashed(posts@)[j]];
                &&& (#[trigger] r@[j]).0@ == p.title@
                &&& r@[j].1@ == decimal(p.id as int)
            },
        decreases keep@.len() - k,
    {
        assert(keep@.map_values(|i: usize| i as int)[k as int] == keep@[k as int] as int);
        let p = &posts[keep[k]];
        r.push((p.title.clone(), i32_to_decimal(p.id)));
        k = k + 1;
    }
    r
}

proof fn lemma_untrashed_in_range<M: Copy>(posts: Seq<UpdatePost<M>>, k: int)
    requires
        0 <= k < spec_untrashed(posts).len(),
    ensures
        0 <= spec_untrashed(posts)[k] < posts.len(),
    decreases posts.len(),
{
    if posts.len() > 0 {
        let prev = spec_untrashed(posts.drop_last());
        if k < prev.len() {
            lemma_untrashed_in_range(posts.drop_last(), k);
        }
    }
}

pub const NO_POST_CHOSEN: &'static str = "I was expecting some data, but you didn't send anything. Are you using a hacked client?";

pub const NOT_A_POST: &'static str = "Hmm, I am confused. You are supposed to choose a post, aren't you?";

/// Reads the choice of a post to translate, whose id the button carries in
/// decimal: the id, or the reply (after which the button is answered).
/// With the id, the post is fetched and stored as `Selected`, and the poll
/// of `poll_question` and `poll_options` is sent (several answers allowed).
pub fn post_choice_step(data: Option<&str>) -> (r: Result<i32, Reply>)
    ensures
        match data {
            None => r matches Err(rep) && reply_is(rep, NO_POST_CHOSEN@, Keyboard::Keep),
            Some(d) => match spec_parse_i32(d@) {
                None => r matches Err(rep) && reply_is(rep, NOT_A_POST@, Keyboard::Keep),
                Some(id) => r == Ok::<i32, Reply>(id),
            },
        },
{
    match data {
        None => Err(say(NO_POST_CHOSEN)),
        Some(d) => match parse_i32(d) {
            None => Err(say(NOT_A_POST)),
            Some(id) => Ok(id),
        },
    }
}

pub const HOLD_ON: &'static str = "Hold on while I am waiting for the VLM's response";

/// Takes the answers to the language poll: the post under translation and
/// the locales voted for, in the order of the options. Without a selected
/// post (`state` is the stored translation state, its default when none is
/// stored), nothing happens. Then the user's model is looked up
/// (`vision_model_of`), `HOLD_ON` is sent, and the post is translated into
/// each locale in turn, showing the model the translations that succeeded so
/// far (`succeeded_translations`); `translation_report` reports them.
pub fn poll_selection<M: Copy>(state: UpdateTranslationState<M>, options: &Vec<PollOption>) -> (r: Option<(UpdatePost<M>, Vec<SupportedLocale>)>)
    requires
        state is Selected ==> voted_options_named(options@),
    ensures
        match state {
            UpdateTranslationState::Selected(post) => r matches Some((p, locales)) && p == post && locales@ == spec_selected(options@),
            _ => r is None,
        },
{
    match state {
        UpdateTranslationState::Selected(post) => Some((post, selected_languages(options))),
        _ => None,
    }
}

/// The name and key of the user's vision model, when both are stored.
pub fn vision_model_of(config: Option<Configuration>) -> (r: Option<(String, String)>)
    ensures
        match config {
            Some(c) => match (c@.vision_model_name, c@.vision_model_key) {
                (Some(name), Some(key)) => r matches Some((n, k)) && n@ == name && k@ == key,
                _ => r is None,
            },
            None => r is None,
        },
{
    match config {
        Some(c) => match (c.vision_model_name, c.vision_model_key) {
            (Some(name), Some(key)) => Some((name, key)),
            _ => None,
        },
        None => None,
    }
}

pub const ALL_SUCCEEDED: &'static str = "Yay! All translations succeeded~ Let's review before posting!";

pub const WHATS_NEXT: &'static str = "What's next?";

/// The replies that show the translations that succeeded, each with the
/// button to retry it.
pub open spec fn spec_success_replies<M: Copy>(results: Seq<(SupportedLocale, TranslationOutcome<M>)>) -> Seq<(Seq<char>, Keyboard)> {
    spec_succeeded(results).map_values(
        |i: int|
            (
                spec_translation_preview(spec_translated(results[i].1)),
                Keyboard::Retry(spec_translated(results[i].1).locale),
            ),
    )
}

/// The replies that report the translations that failed, in order, each
/// with the button to retry it.
pub open spec fn spec_failure_replies<M: Copy>(results: Seq<(SupportedLocale, TranslationOutcome<M>)>) -> Seq<(Seq<char>, Keyboard)>
    decreases results.len(),
{
    if results.len() == 0 {
        Seq::empty()
    } else {
        let prev = spec_failure_replies(results.drop_last());
        let (locale, outcome) = results.last();
        match outcome {
            TranslationOutcome::Failed(e) => prev.push(
                (
                    "I could not translate to "@ + spec_language_name(locale) + ", cause' "@ + spec_failure_reason(e),
                    Keyboard::Retry(locale),
                ),
            ),
            _ => prev,
        }
    }
}

/// The note after failed translations.
pub open spec fn spec_failure_summary(failures: nat) -> Seq<char> {
    if failures > 1 {
        "Several translations failed. "@ + "Tbh I have zero idea. You may refer to the console for details though"@
    } else {
        "Tbh I have zero idea. You may refer to the console for details though"@
    }
}

/// The report of the translations: when all succeeded, each is shown;
/// otherwise each failure is reported, then a note. Last comes the question
/// with the buttons to post the translations that succeeded, or cancel.
pub open spec fn spec_report_replies<M: Copy>(results: Seq<(SupportedLocale, TranslationOutcome<M>)>) -> Seq<(Seq<char>, Keyboard)> {
    let successes = spec_succeeded(results).len();
    let failures = spec_failed(results).len();
    let body = if failures == 0 {
        seq![(ALL_SUCCEEDED@, Keyboard::Keep)] + spec_success_replies(results)
    } else {
        spec_failure_replies(results).push((spec_failure_summary(failures), Keyboard::Keep))
    };
    body.push((WHATS_NEXT@, Keyboard::PostCancel(successes as usize, failures as usize)))
}

/// The translations of a state under review match the outcomes: those that
/// succeeded, in order, and the locales that failed.
pub open spec fn translated_state_of<M: Copy>(
    s: UpdateTranslationState<M>,
    post: UpdatePost<M>,
    results: Seq<(SupportedLocale, TranslationOutcome<M>)>,
) -> bool {
    &&& s matches UpdateTranslationState::Translated { selected_post, posts, failed }
    &&& selected_post == post
    &&& failed@ == spec_failed(results)
    &&& posts@.len() == spec_succeeded(results).len()
    &&& forall|k: int| 0 <= k < posts@.len() ==> {
        let p = spec_translated(results[spec_succeeded(results)[k]].1);
        &&& (#[trigger] posts@[k]).locale == p.locale
        &&& posts@[k].header@ == p.header@
        &&& posts@[k].title@ == p.title@
        &&& posts@[k].summary@ == p.summary@
        &&& posts@[k].cover == p.cover
        &&& posts@[k].mask == p.mask
    }
}

proof fn lemma_succeeded_in_range<M: Copy>(results: Seq<(SupportedLocale, TranslationOutcome<M>)>, k: int)
    requires
        0 <= k < spec_succeeded(results).len(),
    ensures
        0 <= spec_succeeded(results)[k] < results.len(),
        results[spec_succeeded(results)[k]].1 is Translated,
    decreases results.len(),
{
    if results.len() > 0 {
        let prev = spec_succeeded(results.drop_last());
        if k < prev.len() {
            lemma_succeeded_in_range(results.drop_last(), k);
        }
    }
}

/// Reports the translations of `post` into the chosen locales, and moves to
/// their review.
pub fn translation_report<M: Copy>(post: UpdatePost<M>, results: &Vec<(SupportedLocale, TranslationOutcome<M>)>) -> (r: (UpdateTranslationState<M>, GlobalState, Vec<Reply>))
    ensures
        translated_state_of(r.0, post, results@),
        r.1 == GlobalState::ReviewingUpdateTranslation,
        replies_are(r.2@, spec_report_replies(results@)),
{
    let posts = succeeded_translations(results);
    let failed = failed_locales(results);
    proof {
        lemma_counts_bounded(results@);
    }
    let successes = posts.len();
    let failures = failed.len();
    let mut replies: Vec<Reply> = Vec::new();
    let ghost expected = if failed@.len() == 0 {
        seq![(ALL_SUCCEEDED@, Keyboard::Keep)] + spec_success_replies(results@)
    } else {
        spec_failure_replies(results@).push((spec_failure_summary(failed@.len()), Keyboard::Keep))
    };
    if failed.len() == 0 {
        replies.push(say(ALL_SUCCEEDED));
        let mut k: usize = 0;
        while k < posts.len()
            invariant
                k <= posts@.len(),
                posts@.len() == spec_succeeded(results@).len(),
                forall|j: int| 0 <= j < posts@.len() ==> {
                    let p = spec_translated(results@[spec_succeeded(results@)[j]].1);
                    &&& (#[trigger] posts@[j]).locale == p.locale
                    &&& posts@[j].header@ == p.header@
                    &&& posts@[j].title@ == p.title@
                    &&& posts@[j].summary@ == p.summary@
                    &&& posts@[j].cover == p.cover
                    &&& posts@[j].mask == p.mask
                },
                replies_are(replies@, (seq![(ALL_SUCCEEDED@, Keyboard::Keep)] + spec_success_replies(results@)).take(k as int + 1)),
            decreases posts@.len() - k,
        {
            let p = &posts[k];
            let ghost want = (seq![(ALL_SUCCEEDED@, Keyboard::Keep)] + spec_success_replies(results@));
            replies.push(Reply { text: translation_preview(p), keyboard: Keyboard::Retry(p.locale) });
            assert(want[k as int + 1] == spec_success_replies(results@)[k as int]);
            assert(replies_are(replies@, want.take(k as int + 2))) by {
                assert forall|i: int| 0 <= i < replies@.len() implies reply_is(#[trigger] replies@[i], want.take(k as int + 2)[i].0, want.take(k as int + 2)[i].1) by {
                    if i < k + 1 {
                        assert(want.take(k as int + 1)[i] == want.take(k as int + 2)[i]);
                    }
                }
            }
            k = k + 1;
        }
        assert((seq![(ALL_SUCCEEDED@, Keyboard::Keep)] + spec_success_replies(results@)).take(posts@.len() as int + 1) =~= expected);
    } else {
        let n = results.len();
        let mut i: usize = 0;
        assert(spec_failure_replies(results@.take(0)) =~= Seq::<(Seq<char>, Keyboard)>::empty());
        while i < n
            invariant
                n == results@.len(),
                i <= n,
                replies_are(replies@, spec_failure_replies(results@.take(i as int))),
            decreases n - i,
        {
            assert(results@.take(i as int + 1).drop_last() =~= results@.take(i as int));
            assert(results@.take(i as int + 1).last() == results@[i as int]);
            match &results[i].1 {
                TranslationOutcome::Failed(e) => {
                    let ghost before = replies@;
                    replies.push(Reply { text: failure_message(results[i].0, e), keyboard: Keyboard::Retry(results[i].0) });
                    assert(replies_are(replies@, spec_failure_replies(results@.take(i as int + 1)))) by {
                        assert forall|j: int| 0 <= j < replies@.len() implies reply_is(
                            #[trigger] replies@[j],
                            spec_failure_replies(results@.take(i as int + 1))[j].0,
                            spec_failure_replies(results@.take(i as int + 1))[j].1,
                        ) by {
                            if j < before.len() {
                                assert(replies@[j] == before[j]);
                            }
                        }
                    }
                },
                _ => {},
            }
            i = i + 1;
        }
        assert(results@.take(n as int) =~= results@);
        let ghost before = replies@;
        replies.push(Reply { text: failure_summary(failures), keyboard: Keyboard::Keep });
        assert(replies_are(replies@, expected)) by {
            assert forall|j: int| 0 <= j < replies@.len() implies reply_is(#[trigger] replies@[j], expected[j].0, expected[j].1) by {
                if j < before.len() {
                    assert(replies@[j] == before[j]);
                }
            }
        }
    }
    let ghost before = replies@;
    replies.push(say_post_cancel(successes, failures));
    assert(replies_are(replies@, spec_report_replies(results@))) by {
        assert forall|j: int| 0 <= j < replies@.len() implies reply_is(
            #[trigger] replies@[j],
            spec_report_replies(results@)[j].0,
            spec_report_replies(results@)[j].1,
        ) by {
            if j < before.len() {
                assert(replies@[j] == before[j]);
            }
        }
    }
    (
        UpdateTranslationState::Translated { selected_post: post, posts, failed },
        GlobalState::ReviewingUpdateTranslation,
        replies,
    )
}

fn say_post_cancel(successes: usize, failures: usize) -> (r: Reply)
    ensures
        reply_is(r, WHATS_NEXT@, Keyboard::PostCancel(successes, failures)),
{
    crate::dialog::say_with(WHATS_NEXT, Keyboard::PostCancel(successes, failures))
}

proof fn lemma_counts_bounded<M: Copy>(results: Seq<(SupportedLocale, TranslationOutcome<M>)>)
    ensures
        spec_succeeded(results).len() <= results.len(),
        spec_failed(results).len() <= results.len(),
    decreases results.len(),
{
    if results.len() > 0 {
        lemma_counts_bounded(results.drop_last());
    }
}


pub const NO_REVIEW_DATA: &'static str = "You didn't send me query data. Are you using a hacked client?";

pub const TRANSLATION_CANCELLED: &'static str = "Of course! Come back anytime~";

pub const POSTED: &'static str = "Yippee! I have posted the translations for ya, check them out~";

pub const POST_FAILED: &'static str = "Awaa... I failed to complete the task... You can check the console for details";

/// What to do with a button pressed while translations are reviewed.
#[derive(Debug)]
pub enum TranslationReviewStep<M> {
    /// No translations are under review: nothing happens.
    Ignore,
    /// The button carried no data: send the reply, and do not answer it.
    NoData(Reply),
    /// End the conversation (both states back to their defaults), send the
    /// reply and answer the button.
    Cancel(Reply),
    /// Post these translations with the user's settings (without stored
    /// settings, only answer the button), report with
    /// `translations_posted`, and answer the button.
    Post(Vec<UpdatePutRequest<M>>),
    /// Retry the translation of `selected_post` into `locale`, without
    /// examples, with the user's model (without settings, only answer the
    /// button; without a model, stop), then go on with `retry_done`, store
    /// its state and answer the button.
    Retry { locale: SupportedLocale, selected_post: UpdatePost<M>, posts: Vec<UpdatePutRequest<M>>, failed: Vec<SupportedLocale> },
    /// The data names nothing: answer the button.
    Unknown,
}

/// The codes paired with their locales, as values.
pub open spec fn codes_view(codes: Seq<(SupportedLocale, String)>) -> Seq<(SupportedLocale, Seq<char>)> {
    codes.map_values(|p: (SupportedLocale, String)| (p.0, p.1@))
}

/// Takes a button pressed while translations are reviewed: "Cancel",
/// "Post", or "Retry" with the code of a locale. `state` is the stored
/// translation state (its default when none is stored); `codes` pairs each
/// locale with its code as the API writes it.
pub fn review_translation_step<M: Copy>(
    state: UpdateTranslationState<M>,
    data: Option<&str>,
    codes: &Vec<(SupportedLocale, String)>,
) -> (r: TranslationReviewStep<M>)
    ensures
        match state {
            UpdateTranslationState::Translated { selected_post, posts, failed } => match data {
                None => r matches TranslationReviewStep::NoData(rep) && reply_is(rep, NO_REVIEW_DATA@, Keyboard::Keep),
                Some(d) => {
                    let (code, cancel, post) = spec_translation_review(d@);
                    if cancel {
                        r matches TranslationReviewStep::Cancel(rep) && reply_is(rep, TRANSLATION_CANCELLED@, Keyboard::Keep)
                    } else if post {
                        r == TranslationReviewStep::Post(posts)
                    } else {
                        match code {
                            Some(c) => match spec_locale_by_code(codes_view(codes@), c) {
                                Some(l) => r == (TranslationReviewStep::Retry { locale: l, selected_post, posts, failed }),
                                None => r is Unknown,
                            },
                            None => r is Unknown,
                        }
                    }
                },
            },
            _ => r is Ignore,
        },
{
    let (selected_post, posts, failed) = match state {
        UpdateTranslationState::Translated { selected_post, posts, failed } => (selected_post, posts, failed),
        _ => return TranslationReviewStep::Ignore,
    };
    let d = match data {
        None => return TranslationReviewStep::NoData(say(NO_REVIEW_DATA)),
        Some(d) => d,
    };
    match classify_translation_review(d) {
        TranslationReview::Cancel => TranslationReviewStep::Cancel(say(TRANSLATION_CANCELLED)),
        TranslationReview::Post => TranslationReviewStep::Post(posts),
        TranslationReview::Retry(code) => match locale_by_code(codes, code.as_str()) {
            Some(locale) => TranslationReviewStep::Retry { locale, selected_post, posts, failed },
            None => TranslationReviewStep::Unknown,
        },
        TranslationReview::Unknown => TranslationReviewStep::Unknown,
    }
}

/// Reports the posting of the translations: after success the
/// conversation ends (both states back to their defaults, given first);
/// after a failure the review goes on.
pub fn translations_posted<M: Copy>(ok: bool) -> (r: (Option<(UpdateTranslationState<M>, GlobalState)>, Reply))
    ensures
        ok ==> (r.0 matches Some((t, g)) && t is Idle && g == GlobalState::Idle) && reply_is(r.1, POSTED@, Keyboard::Keep),
        !ok ==> r.0 is None && reply_is(r.1, POST_FAILED@, Keyboard::Keep),
{
    if ok {
        (Some((UpdateTranslationState::Idle, GlobalState::Idle)), say(POSTED))
    } else {
        (None, say(POST_FAILED))
    }
}

/// Goes on after a retried translation into `locale`. The locale leaves the
/// failed ones whatever came out. A translation joins the others and
/// replaces the text of the message whose button was pressed; a failure
/// changes that text (see `retry_failed_text`; `shown` is the text shown,
/// if the message is a text message); a skipped translation changes
/// nothing. The text to put in the message comes second.
pub fn retry_done<M: Copy>(
    selected_post: UpdatePost<M>,
    posts: Vec<UpdatePutRequest<M>>,
    failed: Vec<SupportedLocale>,
    locale: SupportedLocale,
    outcome: TranslationOutcome<M>,
    shown: Option<&str>,
) -> (r: (UpdateTranslationState<M>, Option<String>))
    ensures
        r.0 matches UpdateTranslationState::Translated { selected_post: sp, posts: ps, failed: f } && sp == selected_post
            && f@ == spec_remove_first(failed@, locale) && match outcome {
            TranslationOutcome::Translated(t) => ps@ == posts@.push(t) && (r.1 matches Some(e) && e@
                == spec_translation_preview(t)),
            TranslationOutcome::Failed(_) => ps@ == posts@ && (r.1 matches Some(e) && e@ == spec_retry_failed_text(
                match shown {
                    Some(m) => Some(m@),
                    None => None,
                },
            )),
            TranslationOutcome::Skipped => ps@ == posts@ && r.1 is None,
        },
{
    let mut failed = failed;
    remove_failed(&mut failed, locale);
    let mut posts = posts;
    let edit = match outcome {
        TranslationOutcome::Translated(t) => {
            let text = translation_preview(&t);
            posts.push(t);
            Some(text)
        },
        TranslationOutcome::Failed(_) => Some(retry_failed_text(shown)),
        TranslationOutcome::Skipped => None,
    };
    (UpdateTranslationState::Translated { selected_post, posts, failed }, edit)
}

/// The data that `post_choices` puts on the button of a post is read back
/// by `post_choice_step` as that post's id.
pub proof fn lemma_post_choice_round_trip<M: Copy>(posts: Seq<UpdatePost<M>>, k: int)
    requires
        0 <= k < spec_untrashed(posts).len(),
    ensures
        ({
            let p = posts[spec_untrashed(posts)[k]];
            spec_parse_i32(decimal(p.id as int)) == Some(p.id)
        }),
{
    lemma_parse_decimal(posts[spec_untrashed(posts)[k]].id);
}

/// The "Post" button of a report counts the translations that the review
/// holds for posting and the locales it holds as failed.
pub proof fn lemma_report_counts<M: Copy>(
    post: UpdatePost<M>,
    results: Seq<(SupportedLocale, TranslationOutcome<M>)>,
    s: UpdateTranslationState<M>,
)
    requires
        translated_state_of(s, post, results),
    ensures
        s matches UpdateTranslationState::Translated { posts, failed, .. } && spec_report_replies(results).last().1
            == Keyboard::PostCancel(posts@.len() as usize, failed@.len() as usize),
{
}

/// Retrying a translation takes its locale off the failed ones once, if it
/// was there, and leaves every other failed locale in place.
pub proof fn lemma_retry_takes_locale_off(failed: Seq<SupportedLocale>, locale: SupportedLocale)
    ensures
        spec_remove_first(failed, locale).len() == if failed.contains(locale) {
            failed.len() - 1
        } else {
            failed.len() as int
        },
        forall|other: SupportedLocale| other != locale ==> (spec_remove_first(failed, locale).contains(other) <==> failed.contains(other)),
    decreases failed.len(),
{
    if failed.len() > 0 {
        lemma_retry_takes_locale_off(failed.drop_first(), locale);
        if failed[0] == locale {
            assert(failed.contains(locale));
            assert forall|other: SupportedLocale| other != locale implies (failed.drop_first().contains(other) <==> failed.contains(other)) by {
                if failed.contains(other) {
                    let i = choose|i: int| 0 <= i < failed.len() && failed[i] == other;
                    assert(i != 0);
                    assert(failed.drop_first()[i - 1] == other);
                }
            }
        } else {
            let rest = spec_remove_first(failed.drop_first(), locale);
            assert(spec_remove_first(failed, locale) == seq![failed[0]] + rest);
            assert(failed.contains(locale) <==> failed.drop_first().contains(locale)) by {
                if failed.contains(locale) {
                    let i = choose|i: int| 0 <= i < failed.len() && failed[i] == locale;
                    assert(failed.drop_first()[i - 1] == locale);
                }
            }
            assert forall|other: SupportedLocale| other != locale implies (spec_remove_first(failed, locale).contains(other) <==> failed.contains(other)) by {
                let whole = seq![failed[0]] + rest;
                if whole.contains(other) {
                    let i = choose|i: int| 0 <= i < whole.len() && whole[i] == other;
                    if i > 0 {
                        assert(rest[i - 1] == other);
                        assert(failed.drop_first().contains(other));
                        let j = choose|j: int| 0 <= j < failed.drop_first().len() && failed.drop_first()[j] == other;
                        assert(failed[j + 1] == other);
                    } else {
                        assert(failed[0] == other);
                    }
                }
                if failed.contains(other) {
                    let i = choose|i: int| 0 <= i < failed.len() && failed[i] == other;
                    if i > 0 {
                        assert(failed.drop_first()[i - 1] == other);
                        assert(failed.drop_first().contains(other));
                        assert(rest.contains(other));
                        let j = choose|j: int| 0 <= j < rest.len() && rest[j] == other;
                        assert(whole[j + 1] == other);
                    } else {
                        assert(whole[0] == other);
                    }
                }
            }
        }
    }
}

} // verus!
