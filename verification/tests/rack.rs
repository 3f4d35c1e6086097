use slotsfx::dsp::reconcile::{plan_reconcile, BlockSummary, ConfigSummary, SlotAction, SlotStep};
use slotsfx::dsp::{after_buffer, block_mode, effect_kind_for, is_space_effect, remove_flagged, restored_kind, BlockMode, EffectKind, EffectType, TailState};
use slotsfx::dsp::overdrive::Overdrive;

fn block(id: &str, slot_type: &str, kind: EffectKind, source: Option<&str>, tail_out: bool) -> BlockSummary {
    BlockSummary {
        id: id.to_string(),
        slot_type: slot_type.to_string(),
        kind,
        source: source.map(|s| s.as_bytes().to_vec()),
        normalize: true,
        tail_out,
    }
}

fn config(id: &str, slot_type: &str, path: Option<&str>) -> ConfigSummary {
    ConfigSummary { id: id.to_string(), slot_type: slot_type.to_string(), path: path.map(|s| s.as_bytes().to_vec()), normalize: true }
}

fn reuse(config_index: usize, old_index: usize) -> SlotStep {
    SlotStep { config_index, action: SlotAction::Reuse { old_index, renormalize: false } }
}

fn create(config_index: usize, kind: EffectKind) -> SlotStep {
    SlotStep { config_index, action: SlotAction::Create { kind } }
}

#[test]
fn space_effects_are_delay_and_reverbs() {
    assert!(is_space_effect("delay"));
    assert!(is_space_effect("verb"));
    assert!(is_space_effect("shimmer"));
    assert!(!is_space_effect("amp"));
    assert!(!is_space_effect("Delay"));
    assert!(!is_space_effect(""));
}

#[test]
fn slot_types_name_effect_kinds() {
    assert_eq!(effect_kind_for("pitch"), Some(EffectKind::Pitch));
    assert_eq!(effect_kind_for("amp"), Some(EffectKind::Nam));
    assert_eq!(effect_kind_for("cab"), Some(EffectKind::Cab));
    assert_eq!(effect_kind_for("delay"), Some(EffectKind::Delay));
    assert_eq!(effect_kind_for("verb"), Some(EffectKind::Reverb));
    assert_eq!(effect_kind_for("shimmer"), Some(EffectKind::Reverb));
    assert_eq!(effect_kind_for("gate"), Some(EffectKind::Gate));
    assert_eq!(effect_kind_for("error"), Some(EffectKind::Bitcrusher));
    assert_eq!(effect_kind_for("od"), Some(EffectKind::Overdrive));
    assert_eq!(effect_kind_for("eq"), Some(EffectKind::Eq));
    assert_eq!(effect_kind_for("tuner"), None);
}

#[test]
fn effect_type_reports_kind_and_source() {
    let nam: EffectType<u8, u8, u8, u8, u8, u8, u8> =
        EffectType::Nam { block: 0, model_path: Some(b"a.nam".to_vec()), model_name: "a".to_string() };
    assert_eq!(nam.kind(), EffectKind::Nam);
    assert_eq!(nam.source_path(), Some(b"a.nam".to_vec()));
    assert!(!nam.normalize_flag());
    let cab: EffectType<u8, u8, u8, u8, u8, u8, u8> =
        EffectType::Cab { convolver: 0, ir_path: None, ir_name: String::new(), normalize: true };
    assert_eq!(cab.kind(), EffectKind::Cab);
    assert_eq!(cab.source_path(), None);
    assert!(cab.normalize_flag());
    let od: EffectType<u8, u8, u8, u8, u8, u8, u8> = EffectType::Overdrive { od: Overdrive::new() };
    assert_eq!(od.kind(), EffectKind::Overdrive);
    assert_eq!(od.source_path(), None);
}

#[test]
fn overdrive_new_and_reset() {
    let mut od = Overdrive::new();
    od.reset();
    assert_eq!(od, Overdrive);
}

#[test]
fn reconfiguring_keeps_delay_state_and_model_with_same_file() {
    let old = vec![
        block("a", "amp", EffectKind::Nam, Some("m1.nam"), false),
        block("d", "delay", EffectKind::Delay, None, false),
    ];
    let configs = vec![config("d", "delay", None), config("a", "amp", Some("m1.nam"))];
    let plan = plan_reconcile(&old, &configs, false);
    assert_eq!(plan.steps, vec![reuse(0, 1), reuse(1, 0)]);
    assert!(plan.fading.is_empty());
}

#[test]
fn changed_model_file_starts_fresh() {
    let old = vec![block("a", "amp", EffectKind::Nam, Some("m1.nam"), false)];
    let configs = vec![config("a", "amp", Some("m2.nam"))];
    let plan = plan_reconcile(&old, &configs, false);
    assert_eq!(plan.steps, vec![create(0, EffectKind::Nam)]);
    assert!(plan.fading.is_empty());
}

#[test]
fn same_model_file_under_another_spelling_is_kept() {
    let old = vec![block("a", "amp", EffectKind::Nam, Some("m/x.nam"), false)];
    let configs = vec![config("a", "amp", Some("m//./x.nam"))];
    let plan = plan_reconcile(&old, &configs, false);
    assert_eq!(plan.steps, vec![reuse(0, 0)]);
}

#[test]
fn windows_paths_match_across_separators_and_drive_case() {
    let old = vec![block("c", "cab", EffectKind::Cab, Some(r"C:\IR\a.wav"), false)];
    let configs = vec![config("c", "cab", Some(r"c:/IR\\a.wav"))];
    assert_eq!(plan_reconcile(&old, &configs, true).steps, vec![reuse(0, 0)]);
    assert_eq!(plan_reconcile(&old, &configs, false).steps, vec![create(0, EffectKind::Cab)]);
}

#[test]
fn cabinet_normalisation_change_is_requested() {
    let mut old_cab = block("c", "cab", EffectKind::Cab, None, false);
    old_cab.normalize = false;
    let old = vec![old_cab];
    let configs = vec![config("c", "cab", None)];
    let plan = plan_reconcile(&old, &configs, false);
    assert_eq!(plan.steps, vec![SlotStep { config_index: 0, action: SlotAction::Reuse { old_index: 0, renormalize: true } }]);
}

#[test]
fn removed_delay_with_tail_rings_out() {
    let old = vec![
        block("d", "delay", EffectKind::Delay, None, true),
        block("g", "gate", EffectKind::Gate, None, true),
        block("v", "verb", EffectKind::Reverb, None, false),
    ];
    let configs: Vec<ConfigSummary> = vec![];
    let plan = plan_reconcile(&old, &configs, false);
    assert!(plan.steps.is_empty());
    assert_eq!(plan.fading, vec![0]);
}

#[test]
fn kind_change_under_same_id_drops_old_block() {
    let old = vec![block("x", "verb", EffectKind::Reverb, None, true)];
    let configs = vec![config("x", "delay", None)];
    let plan = plan_reconcile(&old, &configs, false);
    assert_eq!(plan.steps, vec![create(0, EffectKind::Delay)]);
    assert!(plan.fading.is_empty());
}

#[test]
fn stateless_slot_leaves_same_id_block_to_ring_out() {
    let old = vec![block("x", "delay", EffectKind::Delay, None, true)];
    let configs = vec![config("x", "gate", None)];
    let plan = plan_reconcile(&old, &configs, false);
    assert_eq!(plan.steps, vec![create(0, EffectKind::Gate)]);
    assert_eq!(plan.fading, vec![0]);
}

#[test]
fn unknown_slot_type_is_skipped_and_duplicates_start_fresh() {
    let old = vec![
        block("d", "delay", EffectKind::Delay, None, true),
        block("d", "delay", EffectKind::Delay, None, false),
    ];
    let configs = vec![config("u", "mystery", None), config("d", "delay", None), config("d", "delay", None)];
    let plan = plan_reconcile(&old, &configs, false);
    assert_eq!(plan.steps, vec![reuse(1, 1), create(2, EffectKind::Delay)]);
    assert!(plan.fading.is_empty());
}

#[test]
fn unchanged_configuration_keeps_every_state() {
    let old = vec![
        block("p", "pitch", EffectKind::Pitch, None, false),
        block("a", "amp", EffectKind::Nam, Some("m.nam"), false),
        block("c", "cab", EffectKind::Cab, Some("ir.wav"), false),
        block("d", "delay", EffectKind::Delay, None, true),
        block("s", "shimmer", EffectKind::Reverb, None, true),
        block("o", "od", EffectKind::Overdrive, None, false),
    ];
    let configs = vec![
        config("p", "pitch", None),
        config("a", "amp", Some("m.nam")),
        config("c", "cab", Some("ir.wav")),
        config("d", "delay", None),
        config("s", "shimmer", None),
        config("o", "od", None),
    ];
    let plan = plan_reconcile(&old, &configs, false);
    assert_eq!(
        plan.steps,
        vec![
            create(0, EffectKind::Pitch),
            reuse(1, 1),
            reuse(2, 2),
            reuse(3, 3),
            reuse(4, 4),
            create(5, EffectKind::Overdrive),
        ]
    );
    assert!(plan.fading.is_empty());
}

#[test]
fn each_block_is_handed_on_once() {
    let old = vec![
        block("a", "delay", EffectKind::Delay, None, true),
        block("b", "verb", EffectKind::Reverb, None, true),
        block("c", "amp", EffectKind::Nam, None, false),
    ];
    let configs = vec![config("a", "delay", None), config("a", "delay", None), config("c", "amp", None)];
    let plan = plan_reconcile(&old, &configs, false);
    let mut seen = Vec::new();
    for s in &plan.steps {
        if let SlotAction::Reuse { old_index, .. } = s.action {
            seen.push(old_index);
        }
    }
    seen.extend(plan.fading.iter().copied());
    let mut sorted = seen.clone();
    sorted.sort();
    sorted.dedup();
    assert_eq!(sorted.len(), seen.len());
    assert_eq!(plan.fading, vec![1]);
}

const FRESH: TailState = TailState { fading_out: false, faded: false };
const FADING: TailState = TailState { fading_out: true, faded: false };
const FADED: TailState = TailState { fading_out: false, faded: true };

#[test]
fn block_modes() {
    assert_eq!(block_mode(true, true, "delay", FRESH), BlockMode::StartFade);
    assert_eq!(block_mode(true, true, "delay", FADING), BlockMode::ContinueFade);
    assert_eq!(block_mode(true, true, "shimmer", FADED), BlockMode::Skip);
    assert_eq!(block_mode(true, true, "gate", FRESH), BlockMode::Skip);
    assert_eq!(block_mode(true, false, "verb", FADING), BlockMode::Skip);
    assert_eq!(block_mode(false, true, "verb", FADING), BlockMode::ContinueFade);
    assert_eq!(block_mode(false, true, "verb", FRESH), BlockMode::Run);
    assert_eq!(block_mode(false, true, "verb", FADED), BlockMode::Run);
}

#[test]
fn tail_state_after_a_buffer() {
    assert_eq!(after_buffer(BlockMode::Skip, FADED, true), FADED);
    assert_eq!(after_buffer(BlockMode::StartFade, FRESH, false), FADING);
    assert_eq!(after_buffer(BlockMode::ContinueFade, FADING, false), FADING);
    assert_eq!(after_buffer(BlockMode::ContinueFade, FADING, true), FADED);
    assert_eq!(after_buffer(BlockMode::Run, FADED, false), FRESH);
}

#[test]
fn bypassed_delay_fades_once_then_stays_silent() {
    let mut state = FRESH;
    let mut modes = Vec::new();
    for buffer in 0..8 {
        let mode = block_mode(true, true, "delay", state);
        modes.push(mode);
        let finished = buffer == 3;
        state = after_buffer(mode, state, finished);
    }
    assert_eq!(
        modes,
        vec![
            BlockMode::StartFade,
            BlockMode::ContinueFade,
            BlockMode::ContinueFade,
            BlockMode::ContinueFade,
            BlockMode::Skip,
            BlockMode::Skip,
            BlockMode::Skip,
            BlockMode::Skip,
        ]
    );
    let mode = block_mode(false, true, "delay", state);
    assert_eq!(mode, BlockMode::Run);
    state = after_buffer(mode, state, false);
    assert_eq!(block_mode(true, true, "delay", state), BlockMode::StartFade);
}

#[test]
fn faded_blocks_leave_the_tail_list_in_order() {
    let mut v = vec![10, 11, 12, 13, 14];
    remove_flagged(&mut v, &vec![false, true, false, true, false]);
    assert_eq!(v, vec![10, 12, 14]);
    let mut w: Vec<i32> = vec![];
    remove_flagged(&mut w, &vec![]);
    assert!(w.is_empty());
}

#[test]
fn restored_slots_skip_unknown_and_optionally_pitch() {
    assert_eq!(restored_kind("pitch", false), None);
    assert_eq!(restored_kind("pitch", true), Some(EffectKind::Pitch));
    assert_eq!(restored_kind("amp", false), Some(EffectKind::Nam));
    assert_eq!(restored_kind("verb", true), Some(EffectKind::Reverb));
    assert_eq!(restored_kind("tremolo", true), None);
}
