use telecontrol::bot::{PollOption, PostKind};
use telecontrol::dialog::{Keyboard, Reply};
use telecontrol::locale::SupportedLocale;
use telecontrol::models::{UpdatePost, UpdatePutRequest};
use telecontrol::state::{GlobalState, UpdateTranslationState};
use telecontrol::text::parse_i32;
use telecontrol::translation::{TranslationError, TranslationOutcome};
use telecontrol::translation_flow::{
    poll_selection, post_choice_step, post_choices, retry_done, review_translation_step, translate_choice_step,
    translation_offer, translation_report, translations_posted, vision_model_of, TranslationReviewStep,
};
use telecontrol::user::Configuration;

fn texts(replies: &[Reply]) -> Vec<(&str, Keyboard)> {
    replies.iter().map(|r| (r.text.as_str(), r.keyboard)).collect()
}

fn post(id: i32, title: &str, trashed: bool) -> UpdatePost<()> {
    UpdatePost {
        id,
        header: "NEWS".to_string(),
        title: title.to_string(),
        summary: "World".to_string(),
        locale: SupportedLocale::En,
        trashed,
        cover: None,
        mask: (),
    }
}

fn put(locale: SupportedLocale, title: &str) -> UpdatePutRequest<()> {
    UpdatePutRequest {
        locale,
        header: "H".to_string(),
        title: title.to_string(),
        summary: "S".to_string(),
        cover: None,
        mask: (),
    }
}

fn codes() -> Vec<(SupportedLocale, String)> {
    vec![
        (SupportedLocale::En, "en".to_string()),
        (SupportedLocale::Zh, "zh".to_string()),
        (SupportedLocale::ZhTw, "zh-TW".to_string()),
    ]
}

fn model() -> Option<Configuration> {
    Some(Configuration {
        post_auth_key: Some("a".to_string()),
        endpoint: None,
        vision_model_name: Some("m".to_string()),
        vision_model_key: Some("k".to_string()),
    })
}

#[test]
fn choice_of_what_to_translate() {
    assert_eq!(
        translate_choice_step(None).unwrap_err().text,
        "You didn't choose anything. Are you using a hacked client?"
    );
    assert_eq!(
        translate_choice_step(Some("Poem")).unwrap_err().text,
        "I don't understand your choice. Are you using a hacked client or something? I am so confused :X"
    );
    assert_eq!(translate_choice_step(Some("Update")).unwrap(), PostKind::Update);
    assert_eq!(translate_choice_step(Some("Gallery")).unwrap(), PostKind::Gallery);
    assert!(translation_offer(PostKind::Update).is_none());
    assert_eq!(
        translation_offer(PostKind::Gallery).unwrap().text,
        "Oops, this feature is not implemented yet! Come back later~"
    );
}

#[test]
fn posts_offered_and_read_back() {
    let posts = vec![post(12, "kept", false), post(-3, "gone", true), post(-7, "negative", false)];
    let choices = post_choices(&posts);
    assert_eq!(
        choices,
        vec![("kept".to_string(), "12".to_string()), ("negative".to_string(), "-7".to_string())]
    );
    for (_, data) in &choices {
        let id = post_choice_step(Some(data.as_str())).unwrap();
        assert_eq!(id.to_string(), *data);
    }
    assert_eq!(
        post_choice_step(Some("twelve")).unwrap_err().text,
        "Hmm, I am confused. You are supposed to choose a post, aren't you?"
    );
    assert_eq!(
        post_choice_step(None).unwrap_err().text,
        "I was expecting some data, but you didn't send anything. Are you using a hacked client?"
    );
}

#[test]
fn parse_i32_as_std_reads_it() {
    for s in ["0", "42", "+42", "-42", "007", "2147483647", "-2147483648", "2147483648", "-2147483649", "", "+", "-", "4 2", "1e3", "99999999999"] {
        assert_eq!(parse_i32(s), s.parse::<i32>().ok(), "{s:?}");
    }
}

#[test]
fn poll_answers_start_the_translations() {
    let options = vec![
        PollOption { text: "Simplified Chinese".to_string(), voter_count: 1 },
        PollOption { text: "Traditional Chinese".to_string(), voter_count: 0 },
    ];
    let (p, locales) = poll_selection(UpdateTranslationState::Selected(post(1, "t", false)), &options).unwrap();
    assert_eq!(p.id, 1);
    assert_eq!(locales, vec![SupportedLocale::Zh]);
    assert!(poll_selection(UpdateTranslationState::<()>::Idle, &options).is_none());
    assert_eq!(vision_model_of(model()), Some(("m".to_string(), "k".to_string())));
    assert_eq!(vision_model_of(None), None);
    let mut no_name = model().unwrap();
    no_name.vision_model_name = None;
    assert_eq!(vision_model_of(Some(no_name)), None);
}

#[test]
fn report_when_all_succeeded() {
    let results = vec![
        (SupportedLocale::Zh, TranslationOutcome::Translated(put(SupportedLocale::Zh, "你好"))),
        (SupportedLocale::En, TranslationOutcome::Skipped),
    ];
    let (state, global, replies) = translation_report(post(1, "t", false), &results);
    assert_eq!(global, GlobalState::ReviewingUpdateTranslation);
    match state {
        UpdateTranslationState::Translated { selected_post, posts, failed } => {
            assert_eq!(selected_post.id, 1);
            assert_eq!(posts.len(), 1);
            assert!(failed.is_empty());
        },
        other => panic!("{:?}", other),
    }
    assert_eq!(
        texts(&replies),
        vec![
            ("Yay! All translations succeeded~ Let's review before posting!", Keyboard::Keep),
            ("H\n你好\nS", Keyboard::Retry(SupportedLocale::Zh)),
            ("What's next?", Keyboard::PostCancel(1, 0)),
        ]
    );
}

#[test]
fn report_when_some_failed() {
    let results = vec![
        (SupportedLocale::Zh, TranslationOutcome::Translated(put(SupportedLocale::Zh, "你好"))),
        (SupportedLocale::ZhTw, TranslationOutcome::Failed(TranslationError::InvalidXml("bad".to_string()))),
    ];
    let (state, _, replies) = translation_report(post(1, "t", false), &results);
    match state {
        UpdateTranslationState::Translated { failed, posts, .. } => {
            assert_eq!(failed, vec![SupportedLocale::ZhTw]);
            assert_eq!(posts.len(), 1);
        },
        other => panic!("{:?}", other),
    }
    assert_eq!(
        texts(&replies),
        vec![
            (
                "I could not translate to Traditional Chinese, cause' the language model failed to follow my instructions.",
                Keyboard::Retry(SupportedLocale::ZhTw)
            ),
            ("Tbh I have zero idea. You may refer to the console for details though", Keyboard::Keep),
            ("What's next?", Keyboard::PostCancel(1, 1)),
        ]
    );
    let results = vec![
        (SupportedLocale::Zh, TranslationOutcome::Failed(TranslationError::GenAI("x".to_string()))),
        (SupportedLocale::ZhTw, TranslationOutcome::Failed(TranslationError::GenAI("y".to_string()))),
    ];
    let (_, _, replies) = translation_report(post(1, "t", false), &results);
    assert_eq!(replies.len(), 4);
    assert_eq!(
        replies[2].text,
        "Several translations failed. Tbh I have zero idea. You may refer to the console for details though"
    );
    assert_eq!(replies[3].keyboard, Keyboard::PostCancel(0, 2));
}

fn translated() -> UpdateTranslationState<()> {
    UpdateTranslationState::Translated {
        selected_post: post(1, "t", false),
        posts: vec![put(SupportedLocale::Zh, "a")],
        failed: vec![SupportedLocale::ZhTw],
    }
}

#[test]
fn review_step_of_translations() {
    assert!(matches!(review_translation_step(UpdateTranslationState::<()>::Idle, Some("Post"), &codes()), TranslationReviewStep::Ignore));
    match review_translation_step(translated(), None, &codes()) {
        TranslationReviewStep::NoData(r) => assert_eq!(r.text, "You didn't send me query data. Are you using a hacked client?"),
        other => panic!("{:?}", other),
    }
    match review_translation_step(translated(), Some("Cancel"), &codes()) {
        TranslationReviewStep::Cancel(r) => assert_eq!(r.text, "Of course! Come back anytime~"),
        other => panic!("{:?}", other),
    }
    match review_translation_step(translated(), Some("Post"), &codes()) {
        TranslationReviewStep::Post(posts) => assert_eq!(posts[0].title, "a"),
        other => panic!("{:?}", other),
    }
    match review_translation_step(translated(), Some("Retry zh-TW"), &codes()) {
        TranslationReviewStep::Retry { locale, failed, .. } => {
            assert_eq!(locale, SupportedLocale::ZhTw);
            assert_eq!(failed, vec![SupportedLocale::ZhTw]);
        },
        other => panic!("{:?}", other),
    }
    assert!(matches!(review_translation_step(translated(), Some("Retry fr"), &codes()), TranslationReviewStep::Unknown));
    assert!(matches!(review_translation_step(translated(), Some("Again"), &codes()), TranslationReviewStep::Unknown));
}

#[test]
fn posting_the_translations() {
    let (next, r) = translations_posted::<()>(true);
    assert!(matches!(next, Some((UpdateTranslationState::Idle, GlobalState::Idle))));
    assert_eq!(r.text, "Yippee! I have posted the translations for ya, check them out~");
    let (next, r) = translations_posted::<()>(false);
    assert!(next.is_none());
    assert_eq!(r.text, "Awaa... I failed to complete the task... You can check the console for details");
}

#[test]
fn retried_translation() {
    let (state, edit) = retry_done(
        post(1, "t", false),
        vec![],
        vec![SupportedLocale::ZhTw],
        SupportedLocale::ZhTw,
        TranslationOutcome::Translated(put(SupportedLocale::ZhTw, "b")),
        Some("Oops, translation failed again..."),
    );
    assert_eq!(edit.as_deref(), Some("H\nb\nS"));
    match state {
        UpdateTranslationState::Translated { posts, failed, .. } => {
            assert_eq!(posts.len(), 1);
            assert!(failed.is_empty());
        },
        other => panic!("{:?}", other),
    }
    let (state, edit) = retry_done(
        post(1, "t", false),
        vec![],
        vec![SupportedLocale::ZhTw],
        SupportedLocale::ZhTw,
        TranslationOutcome::Failed(TranslationError::GenAI("x".to_string())),
        Some("Oops, translation failed again..."),
    );
    assert_eq!(edit.as_deref(), Some("Oops, translation failed again...."));
    match state {
        UpdateTranslationState::Translated { posts, failed, .. } => {
            assert!(posts.is_empty());
            assert!(failed.is_empty());
        },
        other => panic!("{:?}", other),
    }
    let (_, edit) = retry_done(
        post(1, "t", false),
        vec![],
        vec![],
        SupportedLocale::En,
        TranslationOutcome::Skipped,
        None,
    );
    assert!(edit.is_none());
}
