use whatsmeow::jid::{Jid, JidInfo};
use whatsmeow::media::{media_note, usize_to_decimal};
use whatsmeow::media::{resolve_mime, MediaSource, MediaSourceError, MessageType};

#[test]
fn user_jid_drops_leading_plus_signs_and_appends_server() {
    assert_eq!(Jid::user("+1234567890").as_str(), "1234567890@s.whatsapp.net");
    assert_eq!(Jid::user("1234567890").as_str(), "1234567890@s.whatsapp.net");
    assert_eq!(Jid::user("++77").as_str(), "77@s.whatsapp.net");
    assert_eq!(Jid::user("").as_str(), "@s.whatsapp.net");
}

#[test]
fn group_jid_appends_group_server() {
    assert_eq!(Jid::group("123456789").as_str(), "123456789@g.us");
}

#[test]
fn jid_kind_checks_look_at_the_suffix() {
    assert!(Jid::user("55").is_user());
    assert!(!Jid::user("55").is_group());
    assert!(Jid::group("g1").is_group());
    assert!(!Jid::group("g1").is_user());
    let raw = Jid::new("odd@broadcast".to_string());
    assert!(!raw.is_user());
    assert!(!raw.is_group());
    assert_eq!(raw.as_str(), "odd@broadcast");
}

#[test]
fn jid_info_renders_user_at_server() {
    let info = JidInfo { user: "77".to_string(), server: "s.whatsapp.net".to_string(), device: 3 };
    assert_eq!(info.to_jid().as_str(), "77@s.whatsapp.net");
}

#[test]
fn mime_detection_matches_known_signatures() {
    let png = [0x89u8, 0x50, 0x4e, 0x47, 0x0d, 0x0a, 0x1a, 0x0a, 0, 0, 0, 0];
    assert_eq!(MediaSource::detect_mime_from_signature(&png), "image/png");
    let jpeg = [0xffu8, 0xd8, 0xff, 0xe0, 0, 0, 0, 0];
    assert_eq!(MediaSource::detect_mime_from_signature(&jpeg), "image/jpeg");
    let webp = *b"RIFF\x00\x00\x00\x00WEBP";
    assert_eq!(MediaSource::detect_mime_from_signature(&webp), "image/webp");
    let wav = *b"RIFF\x00\x00\x00\x00WAVE";
    assert_eq!(MediaSource::detect_mime_from_signature(&wav), "audio/wav");
    let gif = *b"GIF89a\x00\x00";
    assert_eq!(MediaSource::detect_mime_from_signature(&gif), "image/gif");
    let pdf = *b"%PDF-1.7\n";
    assert_eq!(MediaSource::detect_mime_from_signature(&pdf), "application/pdf");
    let zip = [0x50u8, 0x4b, 0x03, 0x04, 0, 0, 0, 0];
    assert_eq!(MediaSource::detect_mime_from_signature(&zip), "application/zip");
    let mp4 = *b"\x00\x00\x00\x18ftypmp42";
    assert_eq!(MediaSource::detect_mime_from_signature(&mp4), "video/mp4");
    let ogg = *b"OggS\x00\x00\x00\x00";
    assert_eq!(MediaSource::detect_mime_from_signature(&ogg), "audio/ogg");
    let mp3 = [0xffu8, 0xfb, 0x90, 0x00, 0, 0, 0, 0];
    assert_eq!(MediaSource::detect_mime_from_signature(&mp3), "audio/mpeg");
}

#[test]
fn mime_detection_falls_back_for_short_or_unknown_buffers() {
    assert_eq!(MediaSource::detect_mime_from_signature(b"GIF89a"), "application/octet-stream");
    assert_eq!(
        MediaSource::detect_mime_from_signature(&[1, 2, 3, 4, 5, 6, 7, 8]),
        "application/octet-stream"
    );
    assert_eq!(MediaSource::detect_mime_from_signature(&[]), "application/octet-stream");
}

#[test]
fn bytes_source_loads_as_is() {
    let src = MediaSource::bytes(vec![1, 2, 3]);
    assert_eq!(src.load_bytes().unwrap(), vec![1, 2, 3]);
}

#[test]
fn base64_source_decodes_through_the_standard_alphabet() {
    let src = MediaSource::base64("aGk=".to_string());
    assert_eq!(src.load_bytes().unwrap(), b"hi".to_vec());
    let empty = MediaSource::base64(String::new());
    assert_eq!(empty.load_bytes().unwrap(), Vec::<u8>::new());
}

#[test]
fn invalid_base64_is_reported_not_swallowed() {
    let src = MediaSource::base64("!!!not-base64!!!".to_string());
    assert!(matches!(src.load_bytes(), Err(MediaSourceError::Base64Error(_))));
}

#[test]
fn url_and_path_sources_cannot_be_loaded_directly() {
    let url = MediaSource::url("https://example.invalid/x.png".to_string());
    assert!(matches!(url.load_bytes(), Err(MediaSourceError::InvalidUrl(_))));
    let path = MediaSource::file("photo.jpg".to_string());
    assert!(matches!(path.load_bytes(), Err(MediaSourceError::Io(_))));
}

#[test]
fn resolve_mime_prefers_the_explicit_type() {
    let png = [0x89u8, 0x50, 0x4e, 0x47, 0x0d, 0x0a, 0x1a, 0x0a, 0, 0, 0, 0];
    assert_eq!(resolve_mime(Some("image/custom".to_string()), &png), "image/custom");
    assert_eq!(resolve_mime(None, &png), "image/png");
}

#[test]
fn message_type_constructors_and_text_accessor() {
    let t = MessageType::text("hello".to_string());
    assert_eq!(t.as_text(), Some("hello"));

    let img = MessageType::image(MediaSource::bytes(vec![1]), "image/png".to_string());
    assert_eq!(img.as_text(), None);
    match img {
        MessageType::Image { mime_type, caption, .. } => {
            assert_eq!(mime_type.as_deref(), Some("image/png"));
            assert!(caption.is_none());
        }
        other => panic!("expected an image, got {:?}", other),
    }

    match MessageType::image_auto(MediaSource::bytes(vec![1])) {
        MessageType::Image { mime_type, caption, .. } => {
            assert!(mime_type.is_none());
            assert!(caption.is_none());
        }
        other => panic!("expected an image, got {:?}", other),
    }

    match MessageType::image_with_caption(
        MediaSource::bytes(vec![1]),
        "image/gif".to_string(),
        "cap".to_string(),
    ) {
        MessageType::Image { mime_type, caption, .. } => {
            assert_eq!(mime_type.as_deref(), Some("image/gif"));
            assert_eq!(caption.as_deref(), Some("cap"));
        }
        other => panic!("expected an image, got {:?}", other),
    }

    match MessageType::image_auto_with_caption(MediaSource::bytes(vec![1]), "cap".to_string()) {
        MessageType::Image { mime_type, caption, .. } => {
            assert!(mime_type.is_none());
            assert_eq!(caption.as_deref(), Some("cap"));
        }
        other => panic!("expected an image, got {:?}", other),
    }
}

#[test]
fn decimal_rendering_is_exact() {
    assert_eq!(usize_to_decimal(0), "0");
    assert_eq!(usize_to_decimal(9), "9");
    assert_eq!(usize_to_decimal(10), "10");
    assert_eq!(usize_to_decimal(907), "907");
    assert_eq!(usize_to_decimal(1048576), "1048576");
}

#[test]
fn media_note_renders_type_size_and_caption() {
    assert_eq!(media_note("image/png", 1024, &Some("holiday".to_string())), "[image/png 1024 bytes] holiday");
    assert_eq!(media_note("image/jpeg", 3, &None), "[image/jpeg 3 bytes]");
}

#[test]
fn outgoing_rendering_keeps_text_and_announces_images() {
    let text = MessageType::text("hello".to_string());
    assert_eq!(text.render_outgoing(&[], ""), "hello");

    let img = MessageType::image_with_caption(
        MediaSource::bytes(vec![1, 2, 3]),
        "image/png".to_string(),
        "cap".to_string(),
    );
    assert_eq!(img.render_outgoing(&[1, 2, 3], "image/png"), "[image/png 3 bytes] cap");
}
