use telecontrol::cli::{resolve_setting, DEFAULT_DATABASE_PATH};
use telecontrol::command::Command;
use telecontrol::poll::{first_some_step, Flow};
use telecontrol::text::{i32_to_decimal, split_once_str, starts_with, u32_to_decimal};

#[test]
fn setting_sources_in_order() {
    let s = |x: &str| Some(x.to_string());
    assert_eq!(resolve_setting(s("cli"), s("dotenv"), s("env")), s("cli"));
    assert_eq!(resolve_setting(None, s("dotenv"), s("env")), s("dotenv"));
    assert_eq!(resolve_setting(None, None, s("env")), s("env"));
    assert_eq!(resolve_setting(None, None, None), None);
    assert_eq!(DEFAULT_DATABASE_PATH, "./tcdb.lmdb");
}

#[test]
fn command_descriptions() {
    assert_eq!(Command::Help.description(), "display this menu");
    assert_eq!(Command::Post.description(), "I want to post stuff");
}

#[test]
fn first_some_steps() {
    assert!(matches!(first_some_step::<u8, String>(Ok(None)), Flow::Continue));
    assert!(matches!(first_some_step::<u8, String>(Ok(Some(3))), Flow::Stop(Ok(Some(3)))));
    assert!(matches!(first_some_step::<u8, String>(Err("e".to_string())), Flow::Stop(Err(e)) if e == "e"));
}

#[test]
fn decimal_forms() {
    assert_eq!(u32_to_decimal(0), "0");
    assert_eq!(u32_to_decimal(4294967295), "4294967295");
    assert_eq!(i32_to_decimal(-17), "-17");
    assert_eq!(i32_to_decimal(i32::MIN), "-2147483648");
    assert_eq!(i32_to_decimal(120), "120");
}

#[test]
fn string_helpers() {
    assert!(starts_with("https://x", "https://"));
    assert!(!starts_with("http", "https"));
    assert_eq!(split_once_str("a: b: c", ": "), Some(("a", "b: c")));
    assert_eq!(split_once_str("abc", ": "), None);
}
