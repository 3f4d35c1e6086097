use slotsfx::dsp::pitch_detector::{autotune_target_note, quantize_to_scale, split_midi_note, ScaleType};
use slotsfx::dsp::pitch_shifter::ShiftMode;
use slotsfx::dsp::tuner::{feed_window, note_name};

#[test]
fn scale_intervals() {
    assert_eq!(ScaleType::Chromatic.intervals(), &[0, 1, 2, 3, 4, 5, 6, 7, 8, 9, 10, 11]);
    assert_eq!(ScaleType::Major.intervals(), &[0, 2, 4, 5, 7, 9, 11]);
    assert_eq!(ScaleType::Minor.intervals(), &[0, 2, 3, 5, 7, 8, 10]);
}

#[test]
fn quantize_to_major_and_minor() {
    // C# in C major: D and C are both one semitone away; the first degree (C) wins.
    assert_eq!(quantize_to_scale(1, 4, 0, ScaleType::Major), 0);
    // F# in C major: F (5) and G (7) are one away; F comes first.
    assert_eq!(quantize_to_scale(6, 4, 0, ScaleType::Major), 5);
    // A# in C minor (A# = 10 is in the scale).
    assert_eq!(quantize_to_scale(10, 4, 0, ScaleType::Minor), 10);
    // B in D major is in the scale (degree 9 from D).
    assert_eq!(quantize_to_scale(11, 4, 2, ScaleType::Major), 11);
    // C in D major: B (D + 9) and C# (D + 11) are both one away; B comes first.
    assert_eq!(quantize_to_scale(0, 4, 2, ScaleType::Major), 11);
}

#[test]
fn quantize_keeps_scale_notes_and_is_idempotent() {
    for root in 0u8..12 {
        for note in 0u8..24 {
            let c = quantize_to_scale(note, 0, root, ScaleType::Chromatic);
            assert_eq!(c, note % 12);
            for scale in [ScaleType::Major, ScaleType::Minor] {
                let q = quantize_to_scale(note, 0, root, scale);
                assert!(q < 12);
                assert_eq!(quantize_to_scale(q, 0, root, scale), q);
                let in_key = ((q as i16 - root as i16) % 12 + 12) % 12;
                assert!(scale.intervals().contains(&(in_key as u8)));
            }
        }
    }
}

#[test]
fn midi_notes_split_into_class_and_octave() {
    assert_eq!(split_midi_note(69), (9, 4));
    assert_eq!(split_midi_note(60), (0, 4));
    assert_eq!(split_midi_note(0), (0, -1));
    assert_eq!(split_midi_note(-1), (11, -1));
    assert_eq!(split_midi_note(-13), (11, -2));
}

#[test]
fn autotune_target_is_quantised_note_number() {
    // A (9) in octave 4 stays A: 4 * 12 + 9 - 57 = 0.
    assert_eq!(autotune_target_note(9, 4, 0, ScaleType::Major), 0);
    // G# in C major goes to G: 4 * 12 + 7 - 57 = -2.
    assert_eq!(autotune_target_note(8, 4, 0, ScaleType::Major), -2);
}

#[test]
fn shift_modes_differ() {
    assert_ne!(ShiftMode::PsoLa, ShiftMode::PhaseVocoder);
}

#[test]
fn tuner_note_names() {
    assert_eq!(note_name(0, true), "C");
    assert_eq!(note_name(1, true), "C#");
    assert_eq!(note_name(9, true), "A");
    assert_eq!(note_name(11, true), "B");
    assert_eq!(note_name(12, true), "?");
    assert_eq!(note_name(3, false), "--");
}

#[test]
fn tuner_window_keeps_newest_samples() {
    let mut w: Vec<i32> = vec![1, 2, 3];
    feed_window(&mut w, &[4, 5], 4);
    assert_eq!(w, vec![2, 3, 4, 5]);
    feed_window(&mut w, &[], 2);
    assert_eq!(w, vec![2, 3, 4, 5]);
    feed_window(&mut w, &[6], 10);
    assert_eq!(w, vec![2, 3, 4, 5, 6]);
    feed_window(&mut w, &[7, 8, 9], 2);
    assert_eq!(w, vec![8, 9]);
    feed_window(&mut w, &[1], 0);
    assert!(w.is_empty());
}
