use telecontrol::upload::{PublishError, UploadError};
use telecontrol::image::{Image, ImageSource};
use telecontrol::upload::{progress_message, ImageUpload, State};

#[test]
fn local_file_upload_headers() {
    let img = Image { source: ImageSource::LocalFile("/tmp/x/my cat.png".to_string()), alt_text: "a cat & dog".to_string() };
    match img.upload_request(Some(1234)) {
        ImageUpload::File { path, alt_text_header, file_name_header, content_length } => {
            assert_eq!(path, "/tmp/x/my cat.png");
            assert_eq!(alt_text_header, "a%20cat%20%26%20dog");
            assert_eq!(file_name_header, "my%20cat.png");
            assert_eq!(content_length, 1234);
        },
        other => panic!("unexpected {other:?}"),
    }
}

#[test]
fn content_length_is_cut_to_32_bits() {
    let img = Image { source: ImageSource::LocalFile("/".to_string()), alt_text: "a".to_string() };
    match img.upload_request(Some((1u64 << 32) + 5)) {
        ImageUpload::File { content_length, file_name_header, .. } => {
            assert_eq!(content_length, 5);
            assert_eq!(file_name_header, "unknown");
        },
        other => panic!("unexpected {other:?}"),
    }
    match img.upload_request(Some(u32::MAX as u64)) {
        ImageUpload::File { content_length, .. } => assert_eq!(content_length, -1),
        other => panic!("unexpected {other:?}"),
    }
}

#[test]
fn web_image_is_linked() {
    let img = Image { source: ImageSource::Url("https://e.org/a.png".to_string()), alt_text: "alt".to_string() };
    match img.upload_request(None) {
        ImageUpload::Link { url, alt_text } => {
            assert_eq!(url, "https://e.org/a.png");
            assert_eq!(alt_text, "alt");
        },
        other => panic!("unexpected {other:?}"),
    }
}

#[test]
fn progress_messages() {
    assert_eq!(progress_message(State::UploadingImage), Some("Uploading photo..."));
    assert_eq!(progress_message(State::CreatingPost), Some("Creating content..."));
    assert_eq!(progress_message(State::Completed(3)), None);
}

#[test]
fn upload_and_publish_errors_read_like_their_causes() {
    assert_eq!(UploadError::Upload("413".to_string()).text(), "upload: 413");
    assert_eq!(UploadError::Create("409".to_string()).text(), "create: 409");
    assert_eq!(UploadError::Io("gone".to_string()).text(), "handle files: gone");
    assert_eq!(
        PublishError::PushPhoto(UploadError::Create("409".to_string())).text(),
        "push photo failed to create: 409"
    );
    assert_eq!(PublishError::CreatePost("500".to_string()).text(), "post creation failed: 500");
}
