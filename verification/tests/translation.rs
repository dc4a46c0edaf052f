use telecontrol::translation::translation_outcome;
use telecontrol::locale::SupportedLocale;
use telecontrol::models::{UpdatePost, UpdatePutRequest};
use telecontrol::translation::{
    boundary_from_bytes, failed_locales, failure_message, header_messages, join, needs_translation,
    succeeded_translations, title_summary_messages, translate_header_request_template,
    translate_header_request_template_with_dic, translate_header_response,
    translate_title_summary_request_template, translate_title_summary_response, translated_post, Role,
    TranslationError, TranslationOutcome,
};

const ALPHABET: &str = "abcdefghijklmnopqrstuvwxyzABCDEFGHIJKLMNOPQRSTUVWXYZ0123456789)_";

fn post() -> UpdatePost<()> {
    UpdatePost {
        id: 7,
        header: "NEWS".to_string(),
        title: "Hello".to_string(),
        summary: "World".to_string(),
        locale: SupportedLocale::En,
        trashed: false,
        cover: Some(3),
        mask: (),
    }
}

fn put(locale: SupportedLocale, header: &str, title: &str, summary: &str) -> UpdatePutRequest<()> {
    UpdatePutRequest {
        locale,
        header: header.to_string(),
        title: title.to_string(),
        summary: summary.to_string(),
        cover: None,
        mask: (),
    }
}

fn is_boundary(s: &str) -> bool {
    s.chars().count() == 8 && s.chars().all(|c| ALPHABET.contains(c))
}

#[test]
fn title_summary_response_format() {
    assert_eq!(
        translate_title_summary_response("T", "S"),
        "<tweet>\n<title>T</title>\n<summary>S</summary>\n</tweet>"
    );
}

#[test]
fn header_response_is_the_header() {
    assert_eq!(translate_header_response("Header 1"), "Header 1");
    assert_eq!(translate_header_response(""), "");
}

#[test]
fn boundary_characters_from_bytes() {
    assert_eq!(boundary_from_bytes(&[0, 1, 25, 26, 62, 63, 64, 255]), "abzA)_a_");
    assert_eq!(boundary_from_bytes(&[]), "");
}

#[test]
fn join_with_separator() {
    assert_eq!(join(&vec![], "\n\n"), "");
    assert_eq!(join(&vec!["a".to_string()], "\n\n"), "a");
    assert_eq!(join(&vec!["a".to_string(), "b".to_string(), "c".to_string()], ", "), "a, b, c");
}

#[test]
fn title_summary_request_shape() {
    let r = translate_title_summary_request_template(SupportedLocale::En, SupportedLocale::Zh, "Ti", "Su");
    let prefix = "You are tasked with translating the following social media tweet from English to Simplified Chinese, wrapped in prompt boundary ";
    assert!(r.starts_with(prefix));
    let rest = &r[prefix.len()..];
    let b1 = &rest[..8];
    let b2 = &rest[13..21];
    assert!(is_boundary(b1) && is_boundary(b2));
    let expected = format!("You are tasked with translating the following social media tweet from English to Simplified Chinese, wrapped in prompt boundary {b1} and {b2}\nOutput the translated data in XML. Do not include the prompt boundary wrapper.\n<tweet>\n<title>--prompt boundary {b1}\nTi\n--prompt boundary {b1}--</title>\n<summary>--prompt boundary {b2}\nSu\n--prompt boundary {b2}--</summary>\n</tweet>");
    assert_eq!(r, expected);
}

#[test]
fn header_request_shape() {
    let r = translate_header_request_template(SupportedLocale::Zh, SupportedLocale::ZhTw, "H");
    let prefix = "You are tasked with translating the following text from Simplified Chinese to Traditional Chinese.\n---prompt boundary ";
    assert!(r.starts_with(prefix));
    let b1 = &r[prefix.len()..prefix.len() + 8];
    assert!(is_boundary(b1));
    let expected = format!("You are tasked with translating the following text from Simplified Chinese to Traditional Chinese.\n---prompt boundary {b1}\nH\n---prompt boundary {b1}---\n\nOutput in plain text. Do not include the prompt boundary.");
    assert_eq!(r, expected);
}

#[test]
fn header_request_with_dictionary_shape() {
    let dic = vec!["One".to_string(), "Two".to_string()];
    let r = translate_header_request_template_with_dic(SupportedLocale::En, SupportedLocale::Zh, "H", &dic);
    let prefix = "You are tasked with translating the following text from English to Simplified Chinese. Choose from this dictionary if possible.\n<text>\n--prompt boundary ";
    assert!(r.starts_with(prefix));
    let b1 = &r[prefix.len()..prefix.len() + 8];
    let marker = "<dictionary>\n--prompt boundary ";
    let at = r.find(marker).unwrap() + marker.len();
    let b2 = &r[at..at + 8];
    assert!(is_boundary(b1) && is_boundary(b2));
    let expected = format!("You are tasked with translating the following text from English to Simplified Chinese. Choose from this dictionary if possible.\n<text>\n--prompt boundary {b1}\nH\n--prompt boundary {b1}--\n</text>\n\n<dictionary>\n--prompt boundary {b2}\nOne\n\nTwo\n--prompt boundary {b2}--\n</dictionary>\n\nIf there's no viable translation, use a custom one. Keep the translation short and clean. Either case, output in plain text. Do not include the prompt boundary wrapper nor XML tag.");
    assert_eq!(r, expected);
}

#[test]
fn boundaries_are_random() {
    let a = translate_header_request_template(SupportedLocale::En, SupportedLocale::Zh, "H");
    let b = translate_header_request_template(SupportedLocale::En, SupportedLocale::Zh, "H");
    assert_ne!(a, b);
}

#[test]
fn title_summary_chat_with_examples() {
    let context = vec![put(SupportedLocale::Zh, "新闻", "你好", "世界")];
    let chat = title_summary_messages(&post(), SupportedLocale::ZhTw, Some(&context));
    assert_eq!(chat.len(), 3);
    assert_eq!(chat[0].role, Role::User);
    assert!(chat[0].text.contains("from English to Simplified Chinese"));
    assert!(chat[0].text.contains("\nHello\n"));
    assert_eq!(chat[1].role, Role::Assistant);
    assert_eq!(chat[1].text, "<tweet>\n<title>你好</title>\n<summary>世界</summary>\n</tweet>");
    assert_eq!(chat[2].role, Role::User);
    assert!(chat[2].text.contains("from English to Traditional Chinese"));
    let chat = title_summary_messages(&post(), SupportedLocale::Zh, None);
    assert_eq!(chat.len(), 1);
}

#[test]
fn header_chat_with_examples() {
    let context = vec![put(SupportedLocale::Zh, "新闻", "你好", "世界")];
    let chat = header_messages(&post(), SupportedLocale::ZhTw, Some(&context), None);
    assert_eq!(chat.len(), 3);
    assert!(chat[0].text.contains("from English to Simplified Chinese.\n"));
    assert!(chat[0].text.contains("\n新闻\n"));
    assert_eq!(chat[1].role, Role::Assistant);
    assert_eq!(chat[1].text, "新闻");
    assert!(chat[2].text.contains("\nNEWS\n"));
    assert!(!chat[2].text.contains("dictionary"));
    let dic = vec!["最新".to_string()];
    let chat = header_messages(&post(), SupportedLocale::ZhTw, None, Some(&dic));
    assert_eq!(chat.len(), 1);
    assert!(chat[0].text.contains("\n最新\n"));
}

#[test]
fn no_translation_into_own_locale() {
    assert!(!needs_translation(&post(), SupportedLocale::En));
    assert!(needs_translation(&post(), SupportedLocale::Zh));
}

#[test]
fn translated_post_keeps_cover() {
    let t = translated_post(&post(), SupportedLocale::Zh, "H".to_string(), "T".to_string(), "S".to_string());
    assert_eq!(t.locale, SupportedLocale::Zh);
    assert_eq!(t.header, "H");
    assert_eq!(t.title, "T");
    assert_eq!(t.summary, "S");
    assert_eq!(t.cover, Some(3));
}

#[test]
fn partition_of_results() {
    let results = vec![
        (SupportedLocale::Zh, TranslationOutcome::Translated(put(SupportedLocale::Zh, "a", "b", "c"))),
        (SupportedLocale::En, TranslationOutcome::Skipped),
        (SupportedLocale::ZhTw, TranslationOutcome::Failed(TranslationError::InvalidXml("x".to_string()))),
    ];
    let ok = succeeded_translations(&results);
    assert_eq!(ok.len(), 1);
    assert_eq!(ok[0].locale, SupportedLocale::Zh);
    assert_eq!(ok[0].title, "b");
    assert_eq!(failed_locales(&results), vec![SupportedLocale::ZhTw]);
}

#[test]
fn failure_messages() {
    assert_eq!(
        failure_message(SupportedLocale::Zh, &TranslationError::GenAI("e".to_string())),
        "I could not translate to Simplified Chinese, cause' the VLM provider did not like the request I've sent them."
    );
    assert_eq!(
        failure_message(SupportedLocale::ZhTw, &TranslationError::InvalidXml("e".to_string())),
        "I could not translate to Traditional Chinese, cause' the language model failed to follow my instructions."
    );
}

#[test]
fn outcome_of_the_model_answers() {
    match translation_outcome(&post(), SupportedLocale::Zh, Ok(("T".to_string(), "S".to_string(), "H".to_string()))) {
        TranslationOutcome::Translated(p) => {
            assert_eq!(p.locale, SupportedLocale::Zh);
            assert_eq!((p.title.as_str(), p.summary.as_str(), p.header.as_str()), ("T", "S", "H"));
            assert_eq!(p.cover, Some(3));
        },
        other => panic!("{:?}", other),
    }
    match translation_outcome(&post(), SupportedLocale::Zh, Err(TranslationError::InvalidXml("x".to_string()))) {
        TranslationOutcome::Failed(TranslationError::InvalidXml(m)) => assert_eq!(m, "x"),
        other => panic!("{:?}", other),
    }
}

#[test]
fn translation_errors_read_like_their_causes() {
    assert_eq!(TranslationError::GenAI("quota".to_string()).text(), "quota");
    assert_eq!(TranslationError::InvalidXml("eof".to_string()).text(), "XML parse error: eof");
}
