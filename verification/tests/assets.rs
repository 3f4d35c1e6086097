use slotsfx::webview::{asset_request, contains_parent_step, AssetRequest};
use slotsfx::dsp::tuner::{decode_tuner_state, TunerReading};

fn served(uri: &str) -> Option<String> {
    match asset_request(uri) {
        AssetRequest::Serve { path } => Some(path),
        AssetRequest::Forbidden => None,
    }
}

#[test]
fn asset_paths_lose_leading_slashes() {
    assert_eq!(served("/assets/app.js"), Some("assets/app.js".to_string()));
    assert_eq!(served("///style.css"), Some("style.css".to_string()));
    assert_eq!(served("plain.svg"), Some("plain.svg".to_string()));
}

#[test]
fn empty_asset_path_is_the_index_page() {
    assert_eq!(served("/"), Some("index.html".to_string()));
    assert_eq!(served(""), Some("index.html".to_string()));
    assert_eq!(served("////"), Some("index.html".to_string()));
}

#[test]
fn asset_paths_with_two_dots_are_refused() {
    assert_eq!(served("/../secret.txt"), None);
    assert_eq!(served("/assets/..%2fx"), None);
    assert_eq!(served("/a..b"), None);
    assert_eq!(served("/a.b.c"), Some("a.b.c".to_string()));
}

#[test]
fn parent_step_detection() {
    assert!(contains_parent_step(".."));
    assert!(contains_parent_step("x/../y"));
    assert!(!contains_parent_step("."));
    assert!(!contains_parent_step("./a/.b"));
    assert!(!contains_parent_step(""));
}

#[test]
fn tuner_word_without_note() {
    let r = decode_tuner_state(0);
    assert_eq!(r, TunerReading { active: false, note: -1, octave: 0, cents_hundredths: 0 });
    let r = decode_tuner_state(0xFFFF_0000_FFFF_00FF);
    assert_eq!(r, TunerReading { active: false, note: -1, octave: 0, cents_hundredths: 0 });
}

#[test]
fn tuner_word_with_note() {
    // active, note 9 (A), octave 4, +12.34 cents
    let word: u64 = (1234u64 << 32) | (9u64 << 24) | (4u64 << 16) | (1u64 << 8);
    let r = decode_tuner_state(word);
    assert_eq!(r, TunerReading { active: true, note: 9, octave: 4, cents_hundredths: 1234 });
}

#[test]
fn tuner_word_signed_fields() {
    // octave byte 0xFF reads -1, cents field 0xFFF6 reads -10
    let word: u64 = (0xFFF6u64 << 32) | (2u64 << 24) | (0xFFu64 << 16) | (0x80u64 << 8);
    let r = decode_tuner_state(word);
    assert_eq!(r, TunerReading { active: true, note: 2, octave: -1, cents_hundredths: -10 });
}
