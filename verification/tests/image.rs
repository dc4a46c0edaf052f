use telecontrol::image::{best_size, resolve_alt_text, FileMeta, ImageError, ImageSource, PhotoSize};

fn size(id: &str, w: u32, h: u32) -> PhotoSize {
    PhotoSize {
        file: FileMeta { id: id.to_string(), unique_id: format!("u-{id}") },
        width: w,
        height: h,
    }
}

#[test]
fn filename_of_local_file() {
    let s = ImageSource::LocalFile("/tmp/cache/abc.png".to_string());
    assert_eq!(s.filename(), Some("abc.png".to_string()));
    let s = ImageSource::LocalFile("/tmp/cache/..".to_string());
    assert_eq!(s.filename(), None);
    let s = ImageSource::LocalFile("photo.jpg".to_string());
    assert_eq!(s.filename(), Some("photo.jpg".to_string()));
}

#[test]
fn filename_of_url_takes_text_before_last_slash() {
    let s = ImageSource::Url("https://cdn.example.com/x.jpg".to_string());
    assert_eq!(s.filename(), Some("https://cdn.example.com".to_string()));
    let s = ImageSource::Url("/x.jpg".to_string());
    assert_eq!(s.filename(), Some("x.jpg".to_string()));
    let s = ImageSource::Url("/".to_string());
    assert_eq!(s.filename(), None);
    let s = ImageSource::Url("no-slash".to_string());
    assert_eq!(s.filename(), None);
}

#[test]
fn best_size_takes_largest_and_last_of_equals() {
    assert_eq!(best_size(&vec![]), None);
    assert_eq!(best_size(&vec![size("a", 90, 90), size("b", 320, 320), size("c", 100, 100)]), Some(1));
    assert_eq!(best_size(&vec![size("a", 10, 20), size("b", 20, 10), size("c", 5, 5)]), Some(1));
    assert_eq!(best_size(&vec![size("a", 800, 600)]), Some(0));
}

#[test]
fn alt_text_prefers_given_then_caption() {
    let given = Some("given".to_string());
    let caption = Some("caption".to_string());
    assert_eq!(resolve_alt_text(&given, &caption), Ok("given".to_string()));
    assert_eq!(resolve_alt_text(&None, &caption), Ok("caption".to_string()));
    assert_eq!(resolve_alt_text(&None, &None), Err(ImageError::MissingAltText));
}

#[test]
fn best_size_of_huge_photos() {
    let sizes = vec![size("a", 70000, 70000), size("b", 80000, 60000), size("c", 100, 100)];
    assert_eq!(best_size(&sizes), Some(0));
}
