//! The tuner's bookkeeping: the window of recent samples it analyses and
//! the name it shows for a note.  Pitch detection runs with the host.

use vstd::prelude::*;

verus! {

/// Names of the twelve pitch classes, from C.
pub open spec fn note_names() -> Seq<Seq<char>> {
    seq!["C"@, "C#"@, "D"@, "D#"@, "E"@, "F"@, "F#"@, "G"@, "G#"@, "A"@, "A#"@, "B"@]
}

/// The label the tuner shows: the note's name while a note is detected
/// (`?` for a number past B), and `--` otherwise.
pub open spec fn note_label(note: u8, active: bool) -> Seq<char> {
    if !active {
        "--"@
    } else if note < 12 {
        note_names()[note as int]
    } else {
        "?"@
    }
}

/// The tuner's label for a note (see `note_label`).
pub fn note_name(note: u8, active: bool) -> (r: &'static str)
    ensures
        r@ == note_label(note, active),
{
    if !active {
        return "--";
    }
    match note {
        0 => "C",
        1 => "C#",
        2 => "D",
        3 => "D#",
        4 => "E",
        5 => "F",
        6 => "F#",
        7 => "G",
        8 => "G#",
        9 => "A",
        10 => "A#",
        11 => "B",
        _ => "?",
    }
}

/// What the editor shows of the tuner's shared state word.
#[derive(Debug, Clone, Copy, PartialEq, Eq, Structural)]
pub struct TunerReading {
    pub active: bool,
    /// Pitch class of the detected note, or -1 while none is detected.
    pub note: i32,
    pub octave: i32,
    /// Deviation from the note in hundredths of a cent.
    pub cents_hundredths: i16,
}

/// The reading the editor takes from the tuner's state word: byte 1 says
/// whether a note is detected, byte 3 is its pitch class, byte 2 its octave
/// (signed), and bits 32 to 47 its deviation in hundredths of a cent
/// (signed); without a note the pitch class reads -1 and the rest 0.
pub open spec fn tuner_reading_of(word: u64) -> TunerReading {
    let flag = (word as int / 0x100) % 0x100;
    let note = (word as int / 0x100_0000) % 0x100;
    let octave = (word as int / 0x1_0000) % 0x100;
    let cents = (word as int / 0x1_0000_0000) % 0x1_0000;
    if flag != 0 {
        TunerReading {
            active: true,
            note: note as i32,
            octave: (if octave < 0x80 { octave } else { octave - 0x100 }) as i32,
            cents_hundredths: (if cents < 0x8000 { cents } else { cents - 0x1_0000 }) as i16,
        }
    } else {
        TunerReading { active: false, note: -1i32, octave: 0i32, cents_hundredths: 0i16 }
    }
}

/// Reads the tuner's state word (see `tuner_reading_of`).
pub fn decode_tuner_state(word: u64) -> (r: TunerReading)
    ensures
        r == tuner_reading_of(word),
{
    let flag: u64 = (word >> 8) & 0xFF;
    let note_byte: u64 = (word >> 24) & 0xFF;
    let octave_byte: u64 = (word >> 16) & 0xFF;
    let cents_field: u64 = (word >> 32) & 0xFFFF;
    assert(((word >> 8) & 0xFF) == (word / 0x100) % 256) by (bit_vector);
    assert(((word >> 24) & 0xFF) == (word / 0x100_0000) % 256) by (bit_vector);
    assert(((word >> 16) & 0xFF) == (word / 0x1_0000) % 256) by (bit_vector);
    assert(((word >> 32) & 0xFFFF) == (word / 0x1_0000_0000) % 65536) by (bit_vector);
    if flag == 0 {
        return TunerReading { active: false, note: -1, octave: 0, cents_hundredths: 0 };
    }
    let octave: i32 = if octave_byte < 128 { octave_byte as i32 } else { octave_byte as i32 - 256 };
    let cents: i16 = if cents_field < 32768 { cents_field as i16 } else { (cents_field as i32 - 65536) as i16 };
    TunerReading { active: true, note: note_byte as i32, octave, cents_hundredths: cents }
}

/// The pitch classes of the natural notes, from C.
pub open spec fn natural_classes() -> Seq<u8> {
    seq![0u8, 2, 4, 5, 7, 9, 11]
}

/// The tuner names pitch classes as the chromatic scale from C = 0 does:
/// the natural classes 0, 2, 4, 5, 7, 9 and 11 carry the letters C, D, E,
/// F, G, A and B in that order; every other class is the class below it
/// with a sharp; past B the name is `?`, and without a note `--`.
pub proof fn law_note_names_follow_the_chromatic_scale()
    ensures
        forall|r: int| 0 <= r < 7 ==> note_label(#[trigger] natural_classes()[r], true) == seq!["CDEFGAB"@[r]],
        forall|n: u8| n < 12 && !natural_classes().contains(n)
            ==> #[trigger] note_label(n, true) == note_label((n - 1) as u8, true).push('#'),
        forall|n: u8| n >= 12 ==> #[trigger] note_label(n, true) == "?"@,
        forall|n: u8| #[trigger] note_label(n, false) == "--"@,
{
    reveal_strlit("C");
    reveal_strlit("C#");
    reveal_strlit("D");
    reveal_strlit("D#");
    reveal_strlit("E");
    reveal_strlit("F");
    reveal_strlit("F#");
    reveal_strlit("G");
    reveal_strlit("G#");
    reveal_strlit("A");
    reveal_strlit("A#");
    reveal_strlit("B");
    reveal_strlit("CDEFGAB");
    assert forall|r: int| 0 <= r < 7 implies note_label(#[trigger] natural_classes()[r], true) == seq!["CDEFGAB"@[r]] by {
        if r == 0 {
            assert(note_label(0, true) =~= seq!['C']);
        } else if r == 1 {
            assert(note_label(2, true) =~= seq!['D']);
        } else if r == 2 {
            assert(note_label(4, true) =~= seq!['E']);
        } else if r == 3 {
            assert(note_label(5, true) =~= seq!['F']);
        } else if r == 4 {
            assert(note_label(7, true) =~= seq!['G']);
        } else if r == 5 {
            assert(note_label(9, true) =~= seq!['A']);
        } else {
            assert(note_label(11, true) =~= seq!['B']);
        }
    }
    assert forall|n: u8| n < 12 && !natural_classes().contains(n)
        implies #[trigger] note_label(n, true) == note_label((n - 1) as u8, true).push('#') by {
        assert(natural_classes()[0] == 0 && natural_classes()[1] == 2 && natural_classes()[2] == 4);
        assert(natural_classes()[3] == 5 && natural_classes()[4] == 7 && natural_classes()[5] == 9);
        assert(natural_classes()[6] == 11);
        if n == 1 {
            assert(note_label(1, true) =~= note_label(0, true).push('#'));
        } else if n == 3 {
            assert(note_label(3, true) =~= note_label(2, true).push('#'));
        } else if n == 6 {
            assert(note_label(6, true) =~= note_label(5, true).push('#'));
        } else if n == 8 {
            assert(note_label(8, true) =~= note_label(7, true).push('#'));
        } else {
            assert(n == 10);
            assert(note_label(10, true) =~= note_label(9, true).push('#'));
        }
    }
}

/// The analysis window after feeding `input`: the fed samples appended,
/// and of all that only the newest `max_len` kept.  Feeding nothing leaves
/// the window as it was.
pub open spec fn window_after_feed<T>(window: Seq<T>, input: Seq<T>, max_len: nat) -> Seq<T> {
    let all = window + input;
    if input.len() == 0 {
        window
    } else if all.len() > max_len {
        all.subrange(all.len() - max_len, all.len() as int)
    } else {
        all
    }
}

/// Feeds samples into the tuner's analysis window, keeping at most
/// `max_len` of the newest.
pub fn feed_window<T: Copy>(window: &mut Vec<T>, input: &[T], max_len: usize)
    requires
        old(window)@.len() + input@.len() <= usize::MAX,
    ensures
        final(window)@ == window_after_feed(old(window)@, input@, max_len as nat),
{
    let ghost all = old(window)@ + input@;
    let n_in: usize = input.len();
    if n_in == 0 {
        return;
    }
    let n_old: usize = window.len();
    let total: usize = n_old + n_in;
    if total <= max_len {
        let mut i: usize = 0;
        while i < n_in
            invariant
                n_in == input@.len(),
                i <= n_in,
                window@ == old(window)@ + input@.take(i as int),
            decreases n_in - i,
        {
            window.push(input[i]);
            assert(input@.take(i + 1) =~= input@.take(i as int).push(input@[i as int]));
            i = i + 1;
        }
        assert(input@.take(n_in as int) =~= input@);
        return;
    }
    let skip: usize = total - max_len;
    let mut out: Vec<T> = Vec::new();
    let mut k: usize = skip;
    while k < total
        invariant
            n_old == window@.len(),
            window@ == old(window)@,
            n_in == input@.len(),
            total == n_old + n_in,
            all == window@ + input@,
            skip <= k <= total,
            out@ == all.subrange(skip as int, k as int),
        decreases total - k,
    {
        let x: T = if k < n_old { window[k] } else { input[k - n_old] };
        assert(x == all[k as int]);
        out.push(x);
        assert(all.subrange(skip as int, k + 1) =~= all.subrange(skip as int, k as int).push(all[k as int]));
        k = k + 1;
    }
    *window = out;
}


/// Once fed, the window holds at most `max_len` samples, and they are the
/// newest: it ends with the samples just fed (or with their newest
/// `max_len`), in order.
pub proof fn law_window_keeps_newest<T>(window: Seq<T>, input: Seq<T>, max_len: nat)
    requires
        input.len() > 0,
    ensures
        ({
            let w = window_after_feed(window, input, max_len);
            &&& w.len() <= max_len || w == window + input
            &&& w.len() <= window.len() + input.len()
            &&& input.len() <= max_len ==> w.subrange(w.len() - input.len(), w.len() as int) == input
            &&& input.len() > max_len ==> w == input.subrange(input.len() - max_len, input.len() as int)
        }),
{
    let all = window + input;
    let w = window_after_feed(window, input, max_len);
    if all.len() > max_len {
        if input.len() <= max_len {
            assert(w.subrange(w.len() - input.len(), w.len() as int) =~= input);
        } else {
            assert(w =~= input.subrange(input.len() - max_len, input.len() as int));
        }
    } else {
        assert(w.subrange(w.len() - input.len(), w.len() as int) =~= input);
    }
}

} // verus!
