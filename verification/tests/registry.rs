use telecontrol::image::ImageSource;
use telecontrol::poll::PollContext;
use telecontrol::kvstore::UserId;
use telecontrol::registry::{same_source, CachedImage, Registry};

#[test]
fn read_after_write() {
    let mut r: Registry<PollContext> = Registry::new();
    assert!(r.get("p1").is_none());
    let a = PollContext { original_chat_id: 10, issuer_id: UserId(1) };
    let b = PollContext { original_chat_id: 20, issuer_id: UserId(2) };
    r.insert("p1".to_string(), a);
    r.insert("p2".to_string(), b);
    assert_eq!(r.get("p1"), Some(&a));
    assert_eq!(r.get("p2"), Some(&b));
    r.insert("p1".to_string(), b);
    assert_eq!(r.get("p1"), Some(&b));
    assert_eq!(r.get("p2"), Some(&b));
}

#[test]
fn remove_gives_back_value() {
    let mut r: Registry<u32> = Registry::new();
    r.insert("a".to_string(), 1);
    r.insert("b".to_string(), 2);
    assert_eq!(r.remove("a"), Some(1));
    assert_eq!(r.get("a"), None);
    assert_eq!(r.get("b"), Some(&2));
    assert_eq!(r.remove("a"), None);
}

#[test]
fn cached_image_found_by_source() {
    let mut r: Registry<CachedImage<()>> = Registry::new();
    r.insert("u1".to_string(), CachedImage { source: ImageSource::LocalFile("/tmp/a".to_string()), keep: () });
    r.insert("u2".to_string(), CachedImage { source: ImageSource::Url("/tmp/b".to_string()), keep: () });
    assert_eq!(r.key_of_source(&ImageSource::LocalFile("/tmp/a".to_string())), Some("u1".to_string()));
    assert_eq!(r.key_of_source(&ImageSource::Url("/tmp/b".to_string())), Some("u2".to_string()));
    assert_eq!(r.key_of_source(&ImageSource::LocalFile("/tmp/b".to_string())), None);
    assert!(same_source(&ImageSource::Url("x".to_string()), &ImageSource::Url("x".to_string())));
    assert!(!same_source(&ImageSource::Url("x".to_string()), &ImageSource::LocalFile("x".to_string())));
}
