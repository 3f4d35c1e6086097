//! Integer side of pitch handling: scales, quantisation to a scale degree,
//! and the split of a MIDI note number into pitch class and octave.

use vstd::prelude::*;

verus! {

/// Scale definitions for auto-tune.
#[derive(Debug, Clone, Copy, PartialEq, Eq, Structural)]
pub enum ScaleType {
    Chromatic,
    Major,
    Minor,
}

/// Semitone offsets from the root that belong to each scale.
pub open spec fn scale_intervals(scale: ScaleType) -> Seq<u8> {
    match scale {
        ScaleType::Chromatic => seq![0u8, 1, 2, 3, 4, 5, 6, 7, 8, 9, 10, 11],
        ScaleType::Major => seq![0u8, 2, 4, 5, 7, 9, 11],
        ScaleType::Minor => seq![0u8, 2, 3, 5, 7, 8, 10],
    }
}

impl ScaleType {
    /// The scale's semitone offsets from its root, ascending.
    pub fn intervals(&self) -> (r: &'static [u8])
        ensures
            r@ == scale_intervals(*self),
    {
        match self {
            ScaleType::Chromatic => &[0, 1, 2, 3, 4, 5, 6, 7, 8, 9, 10, 11],
            ScaleType::Major => &[0, 2, 4, 5, 7, 9, 11],
            ScaleType::Minor => &[0, 2, 3, 5, 7, 8, 10],
        }
    }
}


/// Pitch class of an integer note number (0 = the pitch class of C).
pub open spec fn pitch_class(n: int) -> int {
    n % 12
}

/// Distance in semitones between two pitch classes, going round the
/// octave whichever way is shorter.
pub open spec fn circular_distance(a: int, b: int) -> int {
    let up = (a - b) % 12;
    let down = (b - a) % 12;
    if up <= down { up } else { down }
}

/// Distance from the note (relative to the root) to the scale degree `k`.
pub open spec fn degree_distance(note: u8, root_key: u8, scale: ScaleType, k: int) -> int {
    circular_distance(pitch_class(note - root_key), scale_intervals(scale)[k] as int)
}

/// `k` is the first scale degree closest to the note.
pub open spec fn is_nearest_degree(note: u8, root_key: u8, scale: ScaleType, k: int) -> bool {
    &&& 0 <= k < scale_intervals(scale).len()
    &&& forall|j: int| 0 <= j < scale_intervals(scale).len()
        ==> degree_distance(note, root_key, scale, k) <= #[trigger] degree_distance(note, root_key, scale, j)
    &&& forall|j: int| 0 <= j < k
        ==> degree_distance(note, root_key, scale, k) < #[trigger] degree_distance(note, root_key, scale, j)
}

/// The pitch class of scale degree `k` in the key of `root_key`.
pub open spec fn degree_pitch_class(root_key: u8, scale: ScaleType, k: int) -> int {
    pitch_class(root_key + scale_intervals(scale)[k])
}

/// Integer quotient rounded towards zero, as Rust's `/` on integers.
pub open spec fn div_toward_zero(a: int, b: int) -> int {
    if a >= 0 { a / b } else { -((-a) / b) }
}

/// Splits a MIDI note number into its pitch class (0 = C) and its octave
/// (MIDI note 60 is C4), the octave wrapped to eight bits as `as i8` does.
pub fn split_midi_note(midi_note: i16) -> (r: (u8, i8))
    ensures
        r.0 as int == pitch_class(midi_note as int),
        r.1 == (div_toward_zero(midi_note as int, 12) - 1) as i8,
{
    let note: i16 = (midi_note % 12 + 12) % 12;
    proof { lemma_remainder(midi_note); }
    let q: i16 = midi_note / 12;
    assert(q as int == div_toward_zero(midi_note as int, 12));
    (note as u8, (q - 1) as i8)
}

/// `r` is what quantising `note` to `scale` in the key of `root_key` gives.
pub open spec fn quantizes_to(note: u8, root_key: u8, scale: ScaleType, r: int) -> bool {
    exists|k: int| is_nearest_degree(note, root_key, scale, k) && r == degree_pitch_class(root_key, scale, k)
}

proof fn lemma_remainder(x: i16)
    ensures
        ((x % 12 + 12) % 12) as int == (x as int) % 12,
        0 <= ((x % 12 + 12) % 12) < 12,
{
}

fn distance_in_octave(note_in_key: i16, interval: u8) -> (d: i16)
    requires
        0 <= note_in_key < 12,
        interval < 12,
    ensures
        d == circular_distance(note_in_key as int, interval as int),
{
    let a: i16 = note_in_key - interval as i16;
    let b: i16 = interval as i16 - note_in_key;
    let dist: i16 = (a % 12 + 12) % 12;
    let dist_rev: i16 = (b % 12 + 12) % 12;
    proof {
        lemma_remainder(a);
        lemma_remainder(b);
    }
    if dist <= dist_rev { dist } else { dist_rev }
}

/// Quantize a note to the nearest scale degree: the pitch class of the
/// first degree of `scale` (in the key of `root_key`) that is closest to
/// `note` around the octave.
pub fn quantize_to_scale(note: u8, _octave: i8, root_key: u8, scale: ScaleType) -> (r: u8)
    ensures
        quantizes_to(note, root_key, scale, r as int),
{
    let intervals: &[u8] = scale.intervals();
    let diff: i16 = note as i16 - root_key as i16;
    let note_in_key: i16 = (diff % 12 + 12) % 12;
    proof { lemma_remainder(diff); }

    let mut best_distance: i16 = 12;
    let mut best_target: u8 = note;
    let ghost mut best_k: int = -1;
    let mut i: usize = 0;
    while i < intervals.len()
        invariant
            intervals@ == scale_intervals(scale),
            forall|j: int| 0 <= j < intervals@.len() ==> #[trigger] intervals@[j] < 12,
            note_in_key as int == pitch_class(note - root_key),
            0 <= note_in_key < 12,
            i <= intervals@.len(),
            i == 0 ==> best_distance == 12,
            i > 0 ==> {
                &&& 0 <= best_k < i
                &&& best_distance == degree_distance(note, root_key, scale, best_k)
                &&& best_target as int == degree_pitch_class(root_key, scale, best_k)
                &&& forall|j: int| 0 <= j < i ==> best_distance <= #[trigger] degree_distance(note, root_key, scale, j)
                &&& forall|j: int| 0 <= j < best_k ==> best_distance < #[trigger] degree_distance(note, root_key, scale, j)
            },
        decreases intervals@.len() - i,
    {
        let interval: u8 = intervals[i];
        let target: u8 = ((root_key as u16 + interval as u16) % 12) as u8;
        let d: i16 = distance_in_octave(note_in_key, interval);
        assert(d == degree_distance(note, root_key, scale, i as int));
        assert(target as int == degree_pitch_class(root_key, scale, i as int));
        if d < best_distance {
            best_distance = d;
            best_target = target;
            proof { best_k = i as int; }
        }
        i = i + 1;
    }
    assert(is_nearest_degree(note, root_key, scale, best_k));
    best_target
}


/// The MIDI-style note number (A4 = 57 below the reference) that auto-tune
/// aims for: the detected note quantised to the scale, in the detected
/// octave.
pub fn autotune_target_note(note: u8, octave: i8, root_key: u8, scale: ScaleType) -> (r: i16)
    ensures
        exists|t: int| quantizes_to(note, root_key, scale, t) && r as int == octave as int * 12 + t - 57,
{
    let target: u8 = quantize_to_scale(note, octave, root_key, scale);
    proof { law_quantized_note_in_scale(note, root_key, scale, target as int); }
    (octave as i16 * 12) + target as i16 - 57
}

proof fn lemma_distance_zero(a: int, b: int)
    requires
        0 <= a < 12,
        0 <= b < 12,
    ensures
        0 <= circular_distance(a, b),
        circular_distance(a, b) == 0 <==> a == b,
{
}

proof fn lemma_nearest_unique(note: u8, root_key: u8, scale: ScaleType, k1: int, k2: int)
    requires
        is_nearest_degree(note, root_key, scale, k1),
        is_nearest_degree(note, root_key, scale, k2),
    ensures
        k1 == k2,
{
    if k1 < k2 {
        assert(degree_distance(note, root_key, scale, k2) < degree_distance(note, root_key, scale, k1));
    } else if k2 < k1 {
        assert(degree_distance(note, root_key, scale, k1) < degree_distance(note, root_key, scale, k2));
    }
}

/// Quantisation has one answer: two results for the same note, key and
/// scale are equal.
pub proof fn law_quantize_deterministic(note: u8, root_key: u8, scale: ScaleType, r1: int, r2: int)
    requires
        quantizes_to(note, root_key, scale, r1),
        quantizes_to(note, root_key, scale, r2),
    ensures
        r1 == r2,
{
    let k1 = choose|k: int| is_nearest_degree(note, root_key, scale, k) && r1 == degree_pitch_class(root_key, scale, k);
    let k2 = choose|k: int| is_nearest_degree(note, root_key, scale, k) && r2 == degree_pitch_class(root_key, scale, k);
    lemma_nearest_unique(note, root_key, scale, k1, k2);
}

/// A quantised note is a pitch class (0 to 11) that belongs to the scale
/// in the given key.
pub proof fn law_quantized_note_in_scale(note: u8, root_key: u8, scale: ScaleType, r: int)
    requires
        quantizes_to(note, root_key, scale, r),
    ensures
        0 <= r < 12,
        exists|k: int|
            0 <= k < scale_intervals(scale).len() && #[trigger] scale_intervals(scale)[k] as int
                == pitch_class(r - root_key),
{
    let k = choose|k: int| is_nearest_degree(note, root_key, scale, k) && r == degree_pitch_class(root_key, scale, k);
    assert(scale_intervals(scale)[k] < 12);
    assert(scale_intervals(scale)[k] as int == pitch_class(r - root_key));
}

/// A note whose pitch class already belongs to the scale keeps its pitch
/// class.
pub proof fn law_quantize_keeps_scale_notes(note: u8, root_key: u8, scale: ScaleType, r: int)
    requires
        quantizes_to(note, root_key, scale, r),
        exists|j: int|
            0 <= j < scale_intervals(scale).len() && #[trigger] scale_intervals(scale)[j] as int
                == pitch_class(note - root_key),
    ensures
        r == pitch_class(note as int),
{
    let k = choose|k: int| is_nearest_degree(note, root_key, scale, k) && r == degree_pitch_class(root_key, scale, k);
    let j = choose|j: int|
        0 <= j < scale_intervals(scale).len() && #[trigger] scale_intervals(scale)[j] as int == pitch_class(note - root_key);
    let nik = pitch_class(note - root_key);
    assert(scale_intervals(scale)[j] < 12);
    assert(scale_intervals(scale)[k] < 12);
    lemma_distance_zero(nik, scale_intervals(scale)[j] as int);
    lemma_distance_zero(nik, scale_intervals(scale)[k] as int);
    assert(degree_distance(note, root_key, scale, j) == 0);
    assert(degree_distance(note, root_key, scale, k) <= degree_distance(note, root_key, scale, j));
    assert(scale_intervals(scale)[k] as int == nik);
}

/// Quantising twice gives what quantising once gave.
pub proof fn law_quantize_idempotent(note: u8, root_key: u8, scale: ScaleType, r: u8, r2: int)
    requires
        quantizes_to(note, root_key, scale, r as int),
        quantizes_to(r, root_key, scale, r2),
    ensures
        r2 == r as int,
{
    law_quantized_note_in_scale(note, root_key, scale, r as int);
    law_quantize_keeps_scale_notes(r, root_key, scale, r2);
}

/// In the chromatic scale every note keeps its pitch class.
pub proof fn law_chromatic_keeps_pitch_class(note: u8, root_key: u8, r: int)
    requires
        quantizes_to(note, root_key, ScaleType::Chromatic, r),
    ensures
        r == pitch_class(note as int),
{
    let j = pitch_class(note - root_key);
    assert(scale_intervals(ScaleType::Chromatic)[j] as int == j);
    law_quantize_keeps_scale_notes(note, root_key, ScaleType::Chromatic, r);
}

} // verus!
