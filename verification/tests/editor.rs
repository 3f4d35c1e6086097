use slotsfx::params::{knob_label, knob_param, resolve_set_bypass, resolve_set_param, slot_bypass_param, ParamId};
use slotsfx::ui_meta::{move_in_order, slot_meta};
use slotsfx::webview::{cycle_index, file_loaded_script, files_to_load, mime_from_path, sync_script};
use slotsfx::text::{ends_with_text, escape_js, escape_json, text_eq};
use slotsfx::dsp::reconcile::ConfigSummary;

#[test]
fn set_param_aliases() {
    assert_eq!(resolve_set_param("input"), Some(ParamId::InputGain));
    assert_eq!(resolve_set_param("gain"), Some(ParamId::NamGain));
    assert_eq!(resolve_set_param("amp_gain"), Some(ParamId::NamGain));
    assert_eq!(resolve_set_param("treble"), Some(ParamId::AmpHigh));
    assert_eq!(resolve_set_param("pos"), Some(ParamId::CabPosition));
    assert_eq!(resolve_set_param("shimmer"), Some(ParamId::ReverbShimmer));
    assert_eq!(resolve_set_param("shimmer_mix"), Some(ParamId::ReverbMix));
    assert_eq!(resolve_set_param("mode"), Some(ParamId::BitcrushMode));
    assert_eq!(resolve_set_param("hig"), Some(ParamId::EqHighGain));
    assert_eq!(resolve_set_param("macro_4"), Some(ParamId::Macro4));
    assert_eq!(resolve_set_param("snapshot"), Some(ParamId::Snapshot));
    assert_eq!(resolve_set_param("auto_tune_key"), Some(ParamId::AutoTuneKey));
    assert_eq!(resolve_set_param("nam_bypass"), None);
    assert_eq!(resolve_set_param(""), None);
}

#[test]
fn set_bypass_aliases() {
    assert_eq!(resolve_set_bypass("amp_bypass"), Some(ParamId::NamBypass));
    assert_eq!(resolve_set_bypass("verb_bypass"), Some(ParamId::ReverbBypass));
    assert_eq!(resolve_set_bypass("cab_normalize"), Some(ParamId::CabNormalize));
    assert_eq!(resolve_set_bypass("gain"), None);
}

#[test]
fn knobs_and_bypass_switches() {
    assert_eq!(knob_param("amp_gain"), Some(ParamId::NamGain));
    assert_eq!(knob_param("eq_mid_gain"), Some(ParamId::EqMidGain));
    assert_eq!(knob_param("eq_low_freq"), None);
    assert_eq!(knob_label("delay_feedback"), "Fdbk");
    assert_eq!(knob_label("cab_gain"), "Gain");
    assert_eq!(knob_label("nothing"), "???");
    assert_eq!(slot_bypass_param("shimmer"), Some(ParamId::ReverbBypass));
    assert_eq!(slot_bypass_param("gate"), None);
}

#[test]
fn slot_panels() {
    let amp = slot_meta("amp");
    assert_eq!(amp.title, "Amp");
    assert_eq!(amp.knobs, vec!["amp_gain", "amp_bass", "amp_middle", "amp_high", "amp_output"]);
    assert_eq!(amp.color, (34, 23, 53));
    assert_eq!(amp.accent, (224, 122, 95));
    let verb = slot_meta("shimmer");
    assert_eq!(verb.title, "Reverb");
    assert_eq!(verb.knobs.len(), 3);
    let other = slot_meta("unknown");
    assert_eq!(other.title, "Slot");
    assert!(other.knobs.is_empty());
    assert_eq!(other.accent, (100, 100, 140));
}

#[test]
fn mime_types() {
    assert_eq!(mime_from_path("index.html"), "text/html");
    assert_eq!(mime_from_path("assets/app.js"), "application/javascript");
    assert_eq!(mime_from_path("a.css"), "text/css");
    assert_eq!(mime_from_path("logo.svg"), "image/svg+xml");
    assert_eq!(mime_from_path("x.png"), "image/png");
    assert_eq!(mime_from_path("favicon.ico"), "image/x-icon");
    assert_eq!(mime_from_path("data.bin"), "application/octet-stream");
    assert_eq!(mime_from_path("js"), "application/octet-stream");
}

#[test]
fn text_helpers() {
    assert!(text_eq("amp", "amp"));
    assert!(!text_eq("amp", "ampx"));
    assert!(text_eq("é", "é"));
    assert!(ends_with_text("a.wav", ".wav"));
    assert!(!ends_with_text("wav", ".wav"));
    assert!(ends_with_text("x", ""));
    assert_eq!(escape_js(r"C:\a'b"), r"C:\\a\'b");
    assert_eq!(escape_json(r#"{"a":'b'}"#), r#"{\"a\":\'b\'}"#);
    assert_eq!(escape_js(r#"say "hi""#), r#"say "hi""#);
}

#[test]
fn file_loaded_scripts() {
    assert_eq!(
        file_loaded_script("nam", "Diezel's.nam", "slot1", r"C:\m\Diezel's.nam"),
        r"if (window.onFileLoaded) window.onFileLoaded('nam', 'Diezel\'s.nam', 'slot1', 'C:\\m\\Diezel\'s.nam');"
    );
}

#[test]
fn sync_scripts() {
    assert_eq!(
        sync_script(r#"[{"id":"a"}]"#, "[]"),
        r#"if (window.syncSlots) window.syncSlots('[{\"id\":\"a\"}]'); if (window.syncSnapshots) window.syncSnapshots('[]');"#
    );
}

#[test]
fn file_switching_wraps_around() {
    assert_eq!(cycle_index(0, -1, 3), 2);
    assert_eq!(cycle_index(2, 1, 3), 0);
    assert_eq!(cycle_index(1, 1, 3), 2);
    assert_eq!(cycle_index(0, 1, 1), 0);
    assert_eq!(cycle_index(0, -7, 3), 2);
}

fn slot(slot_type: &str, path: Option<&str>) -> ConfigSummary {
    ConfigSummary { id: String::new(), slot_type: slot_type.to_string(), path: path.map(|p| p.as_bytes().to_vec()), normalize: true }
}

#[test]
fn first_model_and_impulse_response_are_loaded() {
    let slots = vec![
        slot("amp", None),
        slot("cab", Some("ir1.wav")),
        slot("amp", Some("m1.nam")),
        slot("amp", Some("m2.nam")),
        slot("cab", Some("ir2.wav")),
    ];
    assert_eq!(files_to_load(&slots), (Some(2), Some(1)));
    assert_eq!(files_to_load(&vec![slot("delay", Some("x"))]), (None, None));
}

#[test]
fn moving_slots_in_the_rack_order() {
    let mut order = [0usize, 1, 2, 3, 4];
    assert!(move_in_order(&mut order, 2, true));
    assert_eq!(order, [0, 2, 1, 3, 4]);
    assert!(move_in_order(&mut order, 1, false));
    assert_eq!(order, [0, 1, 2, 3, 4]);
    assert!(!move_in_order(&mut order, 0, true));
    assert!(!move_in_order(&mut order, 4, false));
    assert_eq!(order, [0, 1, 2, 3, 4]);
    assert!(move_in_order(&mut order, 3, false));
    assert_eq!(order, [0, 1, 2, 4, 3]);
}
