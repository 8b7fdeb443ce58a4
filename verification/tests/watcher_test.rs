use clipwatch::classify::{
    classify, file_reference, is_html_image_marker, is_image_path, percent_decode, Classification,
};
use clipwatch::dedup::DedupState;
use clipwatch::event::{frame_image, frame_metadata, frame_text, ChangeEvent, ImageMetadata};
use clipwatch::fingerprint::fingerprint;
use clipwatch::environment::{BackendPhase, EnvironmentAdapter};
use clipwatch::event::EVENT_NAME;
use clipwatch::materialize::{
    check_for_write, encode_png, filename_for, is_well_formed, png_to_write,
};
use clipwatch::snapshot::{ClipboardSnapshot, NotAvailable, RawImage, WriteFailed};
use clipwatch::watcher::{
    Action, StartupError, StartupProbe, Watcher, POLL_INTERVAL_MS, STARTUP_GRACE_MS,
};
use std::collections::hash_map::DefaultHasher;
use std::hash::Hasher;

fn image_a() -> RawImage {
    RawImage { width: 2, height: 1, bytes: vec![255, 0, 0, 255, 0, 255, 0, 255] }
}

fn image_b() -> RawImage {
    RawImage { width: 1, height: 2, bytes: vec![255, 0, 0, 255, 0, 255, 0, 255] }
}

fn ready() -> StartupProbe {
    StartupProbe { clipboard_available: true, images_dir_writable: true }
}

fn empty_clipboard() -> ClipboardSnapshot {
    ClipboardSnapshot { text: None, image: None }
}

fn text_only(text: &str) -> ClipboardSnapshot {
    ClipboardSnapshot { text: Some(text.to_string()), image: None }
}

fn image_only(img: RawImage) -> ClipboardSnapshot {
    ClipboardSnapshot { text: None, image: Some(img) }
}

fn fresh_watcher() -> Watcher {
    Watcher::start(ready(), empty_clipboard()).unwrap()
}

fn expected_fingerprint(img: &RawImage) -> u64 {
    let mut hasher = DefaultHasher::new();
    hasher.write(&img.bytes);
    hasher.write(&(img.width as u64).to_le_bytes());
    hasher.write(&(img.height as u64).to_le_bytes());
    hasher.finish()
}

#[test]
fn identical_image_copies_emit_once() {
    let mut w = fresh_watcher();
    let first = w.step(image_only(image_a()), false);
    assert!(matches!(first, Action::StoreImage(_, _)));
    for _ in 0..5 {
        assert_eq!(w.step(image_only(image_a()), false), Action::Idle);
    }
    assert!(matches!(w.step(image_only(image_b()), false), Action::StoreImage(_, _)));
}

#[test]
fn repeated_text_emits_once_and_new_text_emits() {
    let mut w = fresh_watcher();
    assert_eq!(
        w.step(text_only("first"), false),
        Action::Emit(ChangeEvent::Text { content: "first".to_string() })
    );
    assert_eq!(w.step(text_only("first"), false), Action::Idle);
    assert_eq!(
        w.step(text_only("second"), false),
        Action::Emit(ChangeEvent::Text { content: "second".to_string() })
    );
}

#[test]
fn image_text_image_emits_three_times() {
    let mut w = fresh_watcher();
    assert!(matches!(w.step(image_only(image_a()), false), Action::StoreImage(_, _)));
    assert_eq!(w.dedup().last_text(), "");
    assert!(matches!(w.step(text_only("between"), false), Action::Emit(_)));
    assert_eq!(w.dedup().last_image(), None);
    assert!(matches!(w.step(image_only(image_a()), false), Action::StoreImage(_, _)));
}

#[test]
fn text_image_text_emits_three_times() {
    let mut w = fresh_watcher();
    assert!(matches!(w.step(text_only("same"), false), Action::Emit(_)));
    assert!(matches!(w.step(image_only(image_a()), false), Action::StoreImage(_, _)));
    assert!(matches!(w.step(text_only("same"), false), Action::Emit(_)));
}

#[test]
fn empty_text_after_image_is_silent() {
    let mut w = fresh_watcher();
    assert!(matches!(w.step(image_only(image_a()), false), Action::StoreImage(_, _)));
    assert_eq!(w.step(text_only(""), false), Action::Idle);
    assert_eq!(w.dedup().last_image(), Some(expected_fingerprint(&image_a())));
    assert_eq!(w.step(image_only(image_a()), false), Action::Idle);
}

#[test]
fn fingerprint_is_deterministic() {
    let a = image_a();
    let b = image_b();
    let fa = fingerprint(&a.bytes, a.width, a.height);
    assert_eq!(fa, fingerprint(&a.bytes, a.width, a.height));
    assert_eq!(fa, expected_fingerprint(&a));
    assert_eq!(fingerprint(&b.bytes, b.width, b.height), expected_fingerprint(&b));
    assert_ne!(fa, fingerprint(&b.bytes, b.width, b.height));
    assert_ne!(fa, fingerprint(&[255, 0, 0, 255, 0, 255, 0, 254], 2, 1));
}

#[test]
fn html_image_marker_emits_nothing() {
    let mut w = fresh_watcher();
    assert_eq!(w.step(text_only("<meta charset=...>"), false), Action::Idle);
    assert_eq!(w.dedup().last_text(), "");
    assert_eq!(w.step(text_only("<meta charset='utf-8'><img src=\"a.png\">"), false), Action::Idle);
}

#[test]
fn html_image_marker_detection() {
    assert!(is_html_image_marker("<meta charset=...>"));
    assert!(is_html_image_marker("  \n<meta charset=\"utf-8\">"));
    assert!(is_html_image_marker("\t<!DOCTYPE html>"));
    assert!(is_html_image_marker("see <img alt='x' src='y'>"));
    assert!(is_html_image_marker("src= comes before <img"));
    assert!(!is_html_image_marker("<img alone"));
    assert!(!is_html_image_marker("src= alone"));
    assert!(!is_html_image_marker("x <meta"));
    assert!(!is_html_image_marker("<!doctype html>"));
    assert!(!is_html_image_marker(""));
    assert!(!is_html_image_marker("plain text"));
}

#[test]
fn file_reference_paths() {
    assert_eq!(file_reference("file:///tmp/photo.png"), Some("/tmp/photo.png".to_string()));
    assert_eq!(file_reference("  file:///tmp/photo.jpeg\n"), Some("/tmp/photo.jpeg".to_string()));
    assert_eq!(
        file_reference("file:///tmp/my%20photo.webp"),
        Some("/tmp/my photo.webp".to_string())
    );
    assert_eq!(file_reference("file:///tmp/caf%C3%A9.gif"), Some("/tmp/caf\u{e9}.gif".to_string()));
    assert_eq!(file_reference("file:///tmp/caf\u{e9}.tif"), Some("/tmp/caf\u{e9}.tif".to_string()));
    assert_eq!(file_reference("file:///tmp/a%2Epng"), Some("/tmp/a.png".to_string()));
    assert_eq!(file_reference("file:///tmp/%ff.png"), None);
    assert_eq!(file_reference("file:///tmp/notes.txt"), None);
    assert_eq!(file_reference("file:///tmp/PHOTO.PNG"), None);
    assert_eq!(file_reference("/tmp/photo.png"), None);
    assert_eq!(file_reference("see file:///tmp/photo.png"), None);
    assert_eq!(file_reference("file://"), None);
    assert_eq!(file_reference(""), None);
}

#[test]
fn image_extensions() {
    for name in ["a.png", "a.jpg", "a.jpeg", "a.gif", "a.bmp", "a.webp", "a.tiff", "a.tif", ".png"] {
        assert!(is_image_path(name));
    }
    for name in ["a.txt", "png", "a.png.bak", "a.svg", ""] {
        assert!(!is_image_path(name));
    }
}

#[test]
fn percent_decoding() {
    assert_eq!(percent_decode(b"a%20b"), b"a b".to_vec());
    assert_eq!(percent_decode(b"%41%4a%4A%7e"), b"AJJ~".to_vec());
    assert_eq!(percent_decode(b"100%"), b"100%".to_vec());
    assert_eq!(percent_decode(b"%4"), b"%4".to_vec());
    assert_eq!(percent_decode(b"%zz%41"), b"%zzA".to_vec());
    assert_eq!(percent_decode(b"%%41"), b"%A".to_vec());
    assert_eq!(percent_decode(b"%2541"), b"%41".to_vec());
    assert_eq!(percent_decode(b"%FF%00"), vec![255, 0]);
    assert_eq!(percent_decode(b""), Vec::<u8>::new());
}

#[test]
fn classification_order() {
    let both = ClipboardSnapshot { text: Some("<img src='x'>".to_string()), image: Some(image_a()) };
    assert_eq!(classify(both, true), Classification::Image(image_a()));
    assert_eq!(
        classify(text_only("file:///tmp/photo.png"), true),
        Classification::ImageFileReference("/tmp/photo.png".to_string())
    );
    assert_eq!(
        classify(text_only("file:///tmp/photo.png"), false),
        Classification::PlainText("file:///tmp/photo.png".to_string())
    );
    assert_eq!(
        classify(text_only("file:///tmp/notes.txt"), true),
        Classification::PlainText("file:///tmp/notes.txt".to_string())
    );
    assert_eq!(classify(text_only("hello"), true), Classification::PlainText("hello".to_string()));
    assert_eq!(classify(text_only("<!DOCTYPE html>"), false), Classification::Ignore);
    assert_eq!(classify(empty_clipboard(), true), Classification::Ignore);
}

#[test]
fn file_reference_is_loaded_and_emitted_once() {
    let mut w = fresh_watcher();
    let action = w.step(text_only("file:///tmp/photo.png"), true);
    assert_eq!(action, Action::LoadReference("/tmp/photo.png".to_string()));
    let loaded = image_a();
    let hash = expected_fingerprint(&loaded);
    let (plan, img) = match w.observe_image(loaded) {
        Action::StoreImage(plan, img) => (plan, img),
        other => panic!("expected a new image, got {:?}", other),
    };
    assert_eq!(img, image_a());
    assert_eq!(plan.fingerprint, hash);
    assert_eq!(plan.filename, format!("{}.png", hash));
    let event = plan.into_event(format!("/data/images/{}.png", hash), Some(77));
    match &event {
        ChangeEvent::Image { filename, absolute_path, metadata } => {
            assert_eq!(filename, &format!("{}.png", hash));
            assert_eq!(absolute_path, &format!("/data/images/{}.png", hash));
            assert_eq!(metadata.format, "png");
            assert_eq!(metadata.width, 2);
            assert_eq!(metadata.height, 1);
            assert_eq!(metadata.hash, hash);
            assert_eq!(metadata.byte_size, 77);
        }
        other => panic!("expected an image event, got {:?}", other),
    }
    assert_eq!(
        w.step(text_only("file:///tmp/photo.png"), true),
        Action::LoadReference("/tmp/photo.png".to_string())
    );
    assert_eq!(w.observe_image(image_a()), Action::Idle);
}

#[test]
fn malformed_image_is_skipped_and_polling_goes_on() {
    let mut w = fresh_watcher();
    let short = RawImage { width: 2, height: 2, bytes: vec![0; 15] };
    let long = RawImage { width: 2, height: 2, bytes: vec![0; 17] };
    assert!(!is_well_formed(&short));
    assert!(!is_well_formed(&long));
    assert_eq!(w.step(image_only(short.clone()), false), Action::Idle);
    assert_eq!(w.step(image_only(long), false), Action::Idle);
    assert_eq!(w.step(image_only(short), false), Action::Idle);
    assert!(matches!(w.step(text_only("still alive"), false), Action::Emit(_)));
    assert!(matches!(w.step(image_only(image_a()), false), Action::StoreImage(_, _)));
}

#[test]
fn well_formed_buffers() {
    assert!(is_well_formed(&image_a()));
    assert!(is_well_formed(&RawImage { width: 0, height: 0, bytes: vec![] }));
    assert!(is_well_formed(&RawImage { width: 0, height: 7, bytes: vec![] }));
    assert!(is_well_formed(&RawImage { width: 3, height: 2, bytes: vec![9; 24] }));
    assert!(!is_well_formed(&RawImage { width: 3, height: 2, bytes: vec![9; 6] }));
    assert!(!is_well_formed(&RawImage { width: usize::MAX, height: 0, bytes: vec![] }));
    assert!(!is_well_formed(&RawImage { width: usize::MAX, height: usize::MAX, bytes: vec![] }));
}

#[test]
fn filename_is_decimal_fingerprint() {
    assert_eq!(filename_for(0), "0.png");
    assert_eq!(filename_for(42), "42.png");
    assert_eq!(filename_for(u64::MAX), "18446744073709551615.png");
}

#[test]
fn png_round_trip() {
    let img = image_a();
    let png = encode_png(&img).unwrap();
    assert_eq!(&png[..8], &[0x89, b'P', b'N', b'G', 0x0d, 0x0a, 0x1a, 0x0a]);
    let decoded = image::load_from_memory(&png).unwrap().to_rgba8();
    assert_eq!(decoded.width(), 2);
    assert_eq!(decoded.height(), 1);
    assert_eq!(decoded.into_raw(), img.bytes);
    assert_eq!(encode_png(&img), Some(png));
}

#[test]
fn png_of_malformed_image_is_none() {
    assert_eq!(encode_png(&RawImage { width: 2, height: 2, bytes: vec![0; 15] }), None);
    assert_eq!(encode_png(&RawImage { width: 0, height: 0, bytes: vec![] }), None);
}

#[test]
fn metadata_json_text() {
    let m = ImageMetadata {
        width: 640,
        height: 480,
        format: "png".to_string(),
        hash: 1234567890123,
        byte_size: 0,
    };
    assert_eq!(
        m.to_json(),
        "{\"format\":\"png\",\"hash\":\"1234567890123\",\"height\":480,\"size\":0,\"width\":640}"
    );
    let mut object = serde_json::Map::new();
    object.insert("width".to_string(), serde_json::Value::from(640u64));
    object.insert("height".to_string(), serde_json::Value::from(480u64));
    object.insert("format".to_string(), serde_json::Value::from("png"));
    object.insert("hash".to_string(), serde_json::Value::from("1234567890123"));
    object.insert("size".to_string(), serde_json::Value::from(0u64));
    let parsed: serde_json::Value = serde_json::from_str(&m.to_json()).unwrap();
    assert_eq!(parsed, serde_json::Value::Object(object));
}

#[test]
fn text_payload_json() {
    let event = ChangeEvent::Text { content: "say \"hi\"\n\\o/ \u{e9}".to_string() };
    assert_eq!(event.to_json(), "{\"content\":\"say \\\"hi\\\"\\n\\\\o/ \u{e9}\",\"type\":\"text\"}");
    let parsed: serde_json::Value = serde_json::from_str(&event.to_json()).unwrap();
    assert_eq!(parsed["type"], "text");
    assert_eq!(parsed["content"], "say \"hi\"\n\\o/ \u{e9}");
}

#[test]
fn image_payload_json() {
    let metadata = ImageMetadata {
        width: 2,
        height: 1,
        format: "png".to_string(),
        hash: 7,
        byte_size: 90,
    };
    let event = ChangeEvent::Image {
        filename: "7.png".to_string(),
        absolute_path: "/data/images/7.png".to_string(),
        metadata: metadata.clone(),
    };
    let parsed: serde_json::Value = serde_json::from_str(&event.to_json()).unwrap();
    assert_eq!(parsed["type"], "image");
    assert_eq!(parsed["content"], "7.png");
    assert_eq!(parsed["file_path"], "/data/images/7.png");
    assert_eq!(parsed["metadata"], metadata.to_json().as_str());
    assert_eq!(
        event.to_json(),
        "{\"content\":\"7.png\",\"file_path\":\"/data/images/7.png\",\"metadata\":\"{\\\"format\\\":\\\"png\\\",\\\"hash\\\":\\\"7\\\",\\\"height\\\":1,\\\"size\\\":90,\\\"width\\\":2}\",\"type\":\"image\"}"
    );
}

#[test]
fn startup_fails_without_clipboard() {
    let probe = StartupProbe { clipboard_available: false, images_dir_writable: true };
    assert_eq!(Watcher::start(probe, empty_clipboard()).err(), Some(StartupError::ClipboardUnavailable));
    let neither = StartupProbe { clipboard_available: false, images_dir_writable: false };
    assert_eq!(Watcher::start(neither, empty_clipboard()).err(), Some(StartupError::ClipboardUnavailable));
}

#[test]
fn startup_fails_without_writable_directory() {
    let probe = StartupProbe { clipboard_available: true, images_dir_writable: false };
    assert_eq!(Watcher::start(probe, text_only("x")).err(), Some(StartupError::ImagesDirUnwritable));
}

#[test]
fn content_present_at_startup_is_not_reported() {
    let mut w = Watcher::start(ready(), text_only("already here")).unwrap();
    assert_eq!(w.dedup().last_text(), "already here");
    assert_eq!(w.step(text_only("already here"), false), Action::Idle);
    assert!(matches!(w.step(text_only("new"), false), Action::Emit(_)));

    let mut w = Watcher::start(ready(), image_only(image_a())).unwrap();
    assert_eq!(w.dedup().last_image(), Some(expected_fingerprint(&image_a())));
    assert_eq!(w.step(image_only(image_a()), false), Action::Idle);
    assert!(matches!(w.step(image_only(image_b()), false), Action::StoreImage(_, _)));
}

#[test]
fn dedup_state_operations() {
    let mut s = DedupState::new();
    assert_eq!(s.last_text(), "");
    assert_eq!(s.last_image(), None);
    assert!(s.is_new_image(0));
    assert!(!s.is_new_image(0));
    assert!(s.is_new_image(5));
    assert_eq!(s.last_image(), Some(5));
    assert!(s.is_new_text("t"));
    assert_eq!(s.last_image(), None);
    assert_eq!(s.last_text(), "t");
    assert!(!s.is_new_text("t"));
    assert_eq!(s.last_image(), None);
    assert!(s.is_new_image(5));
    assert!(!s.is_new_text(""));
    assert_eq!(s.last_image(), Some(5));
    assert_eq!(s.last_text(), "");
    assert!(s.is_new_text("t"));
}

#[test]
fn unreadable_file_size_counts_as_zero() {
    let mut w = fresh_watcher();
    let plan = match w.observe_image(image_b()) {
        Action::StoreImage(plan, _) => plan,
        other => panic!("expected a new image, got {:?}", other),
    };
    match plan.into_event("/x.png".to_string(), None) {
        ChangeEvent::Image { metadata, .. } => assert_eq!(metadata.byte_size, 0),
        other => panic!("expected an image event, got {:?}", other),
    }
}

#[test]
fn existing_file_is_not_written_again() {
    let img = image_a();
    assert_eq!(png_to_write(&img, true), None);
    assert_eq!(png_to_write(&img, false), encode_png(&img));
    assert!(png_to_write(&img, false).is_some());
    assert_eq!(png_to_write(&RawImage { width: 1, height: 1, bytes: vec![1, 2, 3] }, false), None);
}

#[test]
fn malformed_image_is_refused_for_writing() {
    assert_eq!(check_for_write(&image_a()), Ok(()));
    assert_eq!(
        check_for_write(&RawImage { width: 2, height: 2, bytes: vec![0; 15] }),
        Err(WriteFailed {})
    );
}

#[test]
fn snapshot_from_reads() {
    let s = ClipboardSnapshot::from_reads(Ok("t".to_string()), Err(NotAvailable {}));
    assert_eq!(s, text_only("t"));
    let s = ClipboardSnapshot::from_reads(Err(NotAvailable {}), Ok(image_a()));
    assert_eq!(s, image_only(image_a()));
    let s = ClipboardSnapshot::from_reads(Err(NotAvailable {}), Err(NotAvailable {}));
    assert_eq!(s, empty_clipboard());
}

#[test]
fn backend_is_configured_once() {
    let mut env = EnvironmentAdapter::new();
    assert_eq!(env.phase, BackendPhase::Untouched);
    assert!(!env.configure_compatible_backend(false));
    assert_eq!(env.phase, BackendPhase::Untouched);
    assert!(env.configure_compatible_backend(true));
    assert_eq!(env.phase, BackendPhase::Configured);
    assert!(!env.configure_compatible_backend(true));
    env.accessor_constructed();
    assert_eq!(env.phase, BackendPhase::AccessorBuilt);
    assert!(!env.configure_compatible_backend(true));

    let mut late = EnvironmentAdapter::new();
    late.accessor_constructed();
    assert!(!late.configure_compatible_backend(true));
    assert_eq!(late.phase, BackendPhase::AccessorBuilt);
}

#[test]
fn loop_constants() {
    assert_eq!(POLL_INTERVAL_MS, 200);
    assert_eq!(STARTUP_GRACE_MS, 500);
    assert_eq!(EVENT_NAME, "clipboard-changed");
}

#[test]
fn json_frames() {
    assert_eq!(
        frame_metadata("\"png\"", "\"7\"", 1, 90, 2),
        "{\"format\":\"png\",\"hash\":\"7\",\"height\":1,\"size\":90,\"width\":2}"
    );
    assert_eq!(
        frame_metadata("F", "H", 0, u64::MAX, 10),
        "{\"format\":F,\"hash\":H,\"height\":0,\"size\":18446744073709551615,\"width\":10}"
    );
    assert_eq!(frame_text("\"hi\""), "{\"content\":\"hi\",\"type\":\"text\"}");
    assert_eq!(
        frame_image("\"7.png\"", "\"/i/7.png\"", "\"{}\""),
        "{\"content\":\"7.png\",\"file_path\":\"/i/7.png\",\"metadata\":\"{}\",\"type\":\"image\"}"
    );
}
