use telecontrol::command::Command;
use telecontrol::dialog::{
    apply_setting, command_step, post_callback_step, setting_refusal, setting_stored, vision_model_step, vision_model_tested, Keyboard,
    Reply, Setting, VisionModelStep,
};
use telecontrol::state::{GlobalState, UpdateVisionModelState};
use telecontrol::user::Configuration;

fn texts(replies: &[Reply]) -> Vec<(&str, Keyboard)> {
    replies.iter().map(|r| (r.text.as_str(), r.keyboard)).collect()
}

fn config(name: Option<&str>, key: Option<&str>) -> Configuration {
    Configuration {
        post_auth_key: Some("auth".to_string()),
        endpoint: None,
        vision_model_name: name.map(|s| s.to_string()),
        vision_model_key: key.map(|s| s.to_string()),
    }
}

#[test]
fn commands_move_an_idle_user() {
    let (g, r) = command_step(Command::SetKey, false).unwrap();
    assert_eq!(g, GlobalState::UpdatingKey);
    assert_eq!(r.text, "Send new key to update, after which sensitive data will be erased.");
    let (g, r) = command_step(Command::SetApi, false).unwrap();
    assert_eq!(g, GlobalState::UpdatingApiEndpoint);
    assert_eq!(r.text, "Send new API endpoint, beginning with http:// or https://");
    let (g, _) = command_step(Command::SetVisionModel, true).unwrap();
    assert_eq!(g, GlobalState::UpdatingVisionModel);
    let (g, r) = command_step(Command::Post, true).unwrap();
    assert_eq!((g, r.text.as_str(), r.keyboard), (GlobalState::PostRequestd, "Choose what you want!", Keyboard::PostKinds));
    let (g, r) = command_step(Command::Post, false).unwrap();
    assert_eq!((g, r.text.as_str()), (GlobalState::Idle, "You should /setkey first"));
    let (g, r) = command_step(Command::Translate, true).unwrap();
    assert_eq!((g, r.text.as_str()), (GlobalState::TranslationRequested, "What would you like to translate today?"));
    let (g, r) = command_step(Command::Translate, false).unwrap();
    assert_eq!((g, r.text.as_str()), (GlobalState::Idle, "You should /setkey and /setvisionmodel first"));
    assert!(command_step(Command::Help, true).is_none());
}

#[test]
fn settings_are_taken_or_refused() {
    assert!(setting_refusal(Setting::Key, "anything").is_none());
    assert!(setting_refusal(Setting::Endpoint, "https://site.example/api").is_none());
    assert!(setting_refusal(Setting::Endpoint, "http://site.example").is_none());
    assert_eq!(
        setting_refusal(Setting::Endpoint, "ftp://site.example").unwrap().text,
        "Whatever you've sent is not an HTTP(s) url and is unsupported. Try again?"
    );
    let c = apply_setting(Setting::Key, Configuration::default(), "secret");
    assert_eq!(c.post_auth_key.as_deref(), Some("secret"));
    let c = apply_setting(Setting::Endpoint, config(None, None), "https://site.example/api");
    assert_eq!(c.endpoint.as_deref(), Some("https://site.example/api"));
    assert_eq!(c.post_auth_key.as_deref(), Some("auth"));
    let (g, r) = setting_stored(Setting::Key, true);
    assert_eq!((g, r.text.as_str()), (GlobalState::Idle, "Post authorization key has been updated."));
    let (g, r) = setting_stored(Setting::Key, false);
    assert_eq!(
        (g, r.text.as_str()),
        (GlobalState::UpdatingKey, "Failed to update key. Please refer to console logs for detail.")
    );
    let (g, r) = setting_stored(Setting::Endpoint, true);
    assert_eq!((g, r.text.as_str()), (GlobalState::Idle, "API endpoint base URL has been updated."));
    let (g, r) = setting_stored(Setting::Endpoint, false);
    assert_eq!(
        (g, r.text.as_str()),
        (GlobalState::UpdatingApiEndpoint, "Failed to update API endpoint. Please refer to console logs for detail.")
    );
}

#[test]
fn choosing_a_gallery_post_starts_collecting() {
    let (g, r) = post_callback_step(Some("Gallery")).unwrap();
    assert_eq!(g, GlobalState::PreparingGalleryPost);
    assert_eq!(
        texts(&[r]),
        vec![(
            "Send me the photo you would like to post! Leave a funny comment if you feel like so~",
            Keyboard::DoneCancel
        )]
    );
    assert!(post_callback_step(Some("Poem")).is_none());
    assert!(post_callback_step(None).is_none());
}

#[test]
fn vision_model_setup() {
    match vision_model_step(UpdateVisionModelState::Name, Configuration::default(), "openai/gpt-4o") {
        VisionModelStep::AskKey { config, reply } => {
            assert_eq!(config.vision_model_name.as_deref(), Some("openai/gpt-4o"));
            assert_eq!(reply.text, "Send me your API key. Sensitive data will be erased afterwards.");
        },
        other => panic!("{:?}", other),
    }
    match vision_model_step(UpdateVisionModelState::Key, config(Some("openai/gpt-4o"), None), "k") {
        VisionModelStep::Test { name } => assert_eq!(name, "openai/gpt-4o"),
        other => panic!("{:?}", other),
    }
    assert!(matches!(
        vision_model_step(UpdateVisionModelState::Key, config(None, None), "k"),
        VisionModelStep::NoName
    ));
    let (stored, reply, global) = vision_model_tested(config(Some("m"), None), "k", true);
    assert_eq!(stored.unwrap().vision_model_key.as_deref(), Some("k"));
    assert_eq!(global, GlobalState::Idle);
    assert_eq!(reply.text, "Perfect! Now you can post with VLM generating captions.");
    let (stored, reply, global) = vision_model_tested(config(Some("m"), None), "k", false);
    assert!(stored.is_none());
    assert_eq!(global, GlobalState::Idle);
    assert_eq!(
        reply.text,
        "Your choice of model / key combination seems not legit. At testflight, an error was returned. Refer to the console for details."
    );
}
