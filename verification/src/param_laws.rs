//! What the editor's parameter tables promise: every knob id and every
//! short name resolves to the parameter it stands for.  The proofs walk the
//! tables entry by entry.

use vstd::prelude::*;
use crate::params::{knob_params, lookup, set_param_names, ParamId};

verus! {

/// No entry of `t` before position `i` is named `k`.
pub open spec fn absent_before<V>(t: Seq<(Seq<char>, V)>, k: Seq<char>, i: int) -> bool
    decreases i,
{
    i <= 0 || (t[i - 1].0 != k && absent_before(t, k, i - 1))
}

proof fn lemma_lookup_at<V>(t: Seq<(Seq<char>, V)>, k: Seq<char>, i: int)
    requires
        0 <= i < t.len(),
        t[i].0 == k,
        absent_before(t, k, i),
    ensures
        lookup(t, k) == Some(t[i].1),
    decreases i,
{
    if i > 0 {
        lemma_absent_first(t, k, i);
        lemma_absent_shift(t, k, i);
        lemma_lookup_at(t.drop_first(), k, i - 1);
    }
}

proof fn lemma_absent_first<V>(t: Seq<(Seq<char>, V)>, k: Seq<char>, j: int)
    requires
        1 <= j,
        absent_before(t, k, j),
    ensures
        t[0].0 != k,
    decreases j,
{
    if j > 1 {
        lemma_absent_first(t, k, j - 1);
    }
}

proof fn lemma_absent_shift<V>(t: Seq<(Seq<char>, V)>, k: Seq<char>, j: int)
    requires
        1 <= t.len(),
        j <= t.len(),
        absent_before(t, k, j),
    ensures
        absent_before(t.drop_first(), k, j - 1),
    decreases j,
{
    if j > 1 {
        lemma_absent_shift(t, k, j - 1);
        assert(t.drop_first()[j - 2] == t[j - 1]);
    }
}

/// The names the editor may use for a parameter in place of its full
/// name, each with that full name.
pub open spec fn set_param_aliases() -> Seq<(Seq<char>, Seq<char>)> {
    seq![
        ("input"@, "input_gain"@),
        ("output"@, "output_gain"@),
        ("nam_gain"@, "amp_gain"@),
        ("gain"@, "amp_gain"@),
        ("bass"@, "amp_bass"@),
        ("middle"@, "amp_middle"@),
        ("mid"@, "amp_middle"@),
        ("high"@, "amp_high"@),
        ("treble"@, "amp_high"@),
        ("amp_out"@, "amp_output"@),
        ("bass_freq"@, "amp_bass_freq"@),
        ("mid_freq"@, "amp_mid_freq"@),
        ("high_freq"@, "amp_high_freq"@),
        ("cab_pos"@, "cab_position"@),
        ("position"@, "cab_position"@),
        ("pos"@, "cab_position"@),
        ("size"@, "cab_size"@),
        ("semi"@, "pitch_semi"@),
        ("feedback"@, "delay_feedback"@),
        ("fdbk"@, "delay_feedback"@),
        ("time"@, "delay_time"@),
        ("ping_pong"@, "delay_ping_pong"@),
        ("verb_mix"@, "reverb_mix"@),
        ("shimmer_mix"@, "reverb_mix"@),
        ("verb_space"@, "reverb_space"@),
        ("space"@, "reverb_space"@),
        ("shimmer"@, "reverb_shimmer"@),
        ("threshold"@, "gate_threshold"@),
        ("thresh"@, "gate_threshold"@),
        ("attack"@, "gate_attack"@),
        ("atk"@, "gate_attack"@),
        ("release"@, "gate_release"@),
        ("rel"@, "gate_release"@),
        ("bits"@, "bitcrush_bits"@),
        ("downsample"@, "bitcrush_downsample"@),
        ("down"@, "bitcrush_downsample"@),
        ("mode"@, "bitcrush_mode"@),
        ("drive"@, "overdrive_drive"@),
        ("tone"@, "overdrive_tone"@),
        ("level"@, "overdrive_level"@),
        ("algo"@, "overdrive_algo"@),
        ("low_gain"@, "eq_low_gain"@),
        ("log"@, "eq_low_gain"@),
        ("mid_gain"@, "eq_mid_gain"@),
        ("midg"@, "eq_mid_gain"@),
        ("high_gain"@, "eq_high_gain"@),
        ("hig"@, "eq_high_gain"@)
    ]
}

proof fn lemma_set_param_entries()
    ensures
        set_param_names().len() == 104,
        set_param_names()[0] == ("input_gain"@, ParamId::InputGain),
        "input_gain"@.len() == 10,
        set_param_names()[1] == ("input"@, ParamId::InputGain),
        "input"@.len() == 5,
        set_param_names()[2] == ("output_gain"@, ParamId::OutputGain),
        "output_gain"@.len() == 11,
        set_param_names()[3] == ("output"@, ParamId::OutputGain),
        "output"@.len() == 6,
        set_param_names()[4] == ("mix"@, ParamId::Mix),
        "mix"@.len() == 3,
        set_param_names()[5] == ("amp_gain"@, ParamId::NamGain),
        "amp_gain"@.len() == 8,
        set_param_names()[6] == ("nam_gain"@, ParamId::NamGain),
        "nam_gain"@.len() == 8,
        set_param_names()[7] == ("gain"@, ParamId::NamGain),
        "gain"@.len() == 4,
        set_param_names()[8] == ("amp_bass"@, ParamId::AmpBass),
        "amp_bass"@.len() == 8,
        set_param_names()[9] == ("bass"@, ParamId::AmpBass),
        "bass"@.len() == 4,
        set_param_names()[10] == ("amp_middle"@, ParamId::AmpMiddle),
        "amp_middle"@.len() == 10,
        set_param_names()[11] == ("middle"@, ParamId::AmpMiddle),
        "middle"@.len() == 6,
        set_param_names()[12] == ("mid"@, ParamId::AmpMiddle),
        "mid"@.len() == 3,
        set_param_names()[13] == ("amp_high"@, ParamId::AmpHigh),
        "amp_high"@.len() == 8,
        set_param_names()[14] == ("high"@, ParamId::AmpHigh),
        "high"@.len() == 4,
        set_param_names()[15] == ("treble"@, ParamId::AmpHigh),
        "treble"@.len() == 6,
        set_param_names()[16] == ("amp_output"@, ParamId::AmpOutput),
        "amp_output"@.len() == 10,
        set_param_names()[17] == ("amp_out"@, ParamId::AmpOutput),
        "amp_out"@.len() == 7,
        set_param_names()[18] == ("amp_bass_freq"@, ParamId::AmpBassFreq),
        "amp_bass_freq"@.len() == 13,
        set_param_names()[19] == ("bass_freq"@, ParamId::AmpBassFreq),
        "bass_freq"@.len() == 9,
        set_param_names()[20] == ("amp_mid_freq"@, ParamId::AmpMidFreq),
        "amp_mid_freq"@.len() == 12,
        set_param_names()[21] == ("mid_freq"@, ParamId::AmpMidFreq),
        "mid_freq"@.len() == 8,
        set_param_names()[22] == ("amp_high_freq"@, ParamId::AmpHighFreq),
        "amp_high_freq"@.len() == 13,
        set_param_names()[23] == ("high_freq"@, ParamId::AmpHighFreq),
        "high_freq"@.len() == 9,
        set_param_names()[24] == ("cab_gain"@, ParamId::CabGain),
        "cab_gain"@.len() == 8,
        set_param_names()[25] == ("cab_position"@, ParamId::CabPosition),
        "cab_position"@.len() == 12,
        set_param_names()[26] == ("cab_pos"@, ParamId::CabPosition),
        "cab_pos"@.len() == 7,
        set_param_names()[27] == ("position"@, ParamId::CabPosition),
        "position"@.len() == 8,
        set_param_names()[28] == ("pos"@, ParamId::CabPosition),
        "pos"@.len() == 3,
        set_param_names()[29] == ("cab_size"@, ParamId::CabSize),
        "cab_size"@.len() == 8,
        set_param_names()[30] == ("size"@, ParamId::CabSize),
        "size"@.len() == 4,
        set_param_names()[31] == ("cab_normalize"@, ParamId::CabNormalize),
        "cab_normalize"@.len() == 13,
        set_param_names()[32] == ("pitch_gain"@, ParamId::PitchGain),
        "pitch_gain"@.len() == 10,
        set_param_names()[33] == ("pitch_semi"@, ParamId::PitchSemi),
        "pitch_semi"@.len() == 10,
        set_param_names()[34] == ("semi"@, ParamId::PitchSemi),
        "semi"@.len() == 4,
        set_param_names()[35] == ("pitch_mix"@, ParamId::PitchMix),
        "pitch_mix"@.len() == 9,
        set_param_names()[36] == ("auto_tune_toggle"@, ParamId::AutoTuneToggle),
        "auto_tune_toggle"@.len() == 16,
        set_param_names()[37] == ("auto_tune_key"@, ParamId::AutoTuneKey),
        "auto_tune_key"@.len() == 13,
        set_param_names()[38] == ("auto_tune_scale"@, ParamId::AutoTuneScale),
        "auto_tune_scale"@.len() == 15,
        set_param_names()[39] == ("auto_tune_mode"@, ParamId::AutoTuneMode),
        "auto_tune_mode"@.len() == 14,
        set_param_names()[40] == ("auto_tune_speed"@, ParamId::AutoTuneSpeed),
        "auto_tune_speed"@.len() == 15,
        set_param_names()[41] == ("auto_tune_amount"@, ParamId::AutoTuneAmount),
        "auto_tune_amount"@.len() == 16,
        set_param_names()[42] == ("delay_mix"@, ParamId::DelayMix),
        "delay_mix"@.len() == 9,
        set_param_names()[43] == ("delay_feedback"@, ParamId::DelayFeedback),
        "delay_feedback"@.len() == 14,
        set_param_names()[44] == ("feedback"@, ParamId::DelayFeedback),
        "feedback"@.len() == 8,
        set_param_names()[45] == ("fdbk"@, ParamId::DelayFeedback),
        "fdbk"@.len() == 4,
        set_param_names()[46] == ("delay_time"@, ParamId::DelayTime),
        "delay_time"@.len() == 10,
        set_param_names()[47] == ("time"@, ParamId::DelayTime),
        "time"@.len() == 4,
        set_param_names()[48] == ("delay_ducking"@, ParamId::DelayDucking),
        "delay_ducking"@.len() == 13,
        set_param_names()[49] == ("delay_ping_pong"@, ParamId::DelayPingPong),
        "delay_ping_pong"@.len() == 15,
        set_param_names()[50] == ("ping_pong"@, ParamId::DelayPingPong),
        "ping_pong"@.len() == 9,
        set_param_names()[51] == ("reverb_mix"@, ParamId::ReverbMix),
        "reverb_mix"@.len() == 10,
        set_param_names()[52] == ("verb_mix"@, ParamId::ReverbMix),
        "verb_mix"@.len() == 8,
        set_param_names()[53] == ("shimmer_mix"@, ParamId::ReverbMix),
        "shimmer_mix"@.len() == 11,
        set_param_names()[54] == ("reverb_space"@, ParamId::ReverbSpace),
        "reverb_space"@.len() == 12,
        set_param_names()[55] == ("verb_space"@, ParamId::ReverbSpace),
        "verb_space"@.len() == 10,
        set_param_names()[56] == ("space"@, ParamId::ReverbSpace),
        "space"@.len() == 5,
        set_param_names()[57] == ("reverb_shimmer"@, ParamId::ReverbShimmer),
        "reverb_shimmer"@.len() == 14,
        set_param_names()[58] == ("shimmer"@, ParamId::ReverbShimmer),
        "shimmer"@.len() == 7,
        set_param_names()[59] == ("reverb_ducking"@, ParamId::ReverbDucking),
        "reverb_ducking"@.len() == 14,
        set_param_names()[60] == ("gate_threshold"@, ParamId::GateThreshold),
        "gate_threshold"@.len() == 14,
        set_param_names()[61] == ("threshold"@, ParamId::GateThreshold),
        "threshold"@.len() == 9,
        set_param_names()[62] == ("thresh"@, ParamId::GateThreshold),
        "thresh"@.len() == 6,
        set_param_names()[63] == ("gate_attack"@, ParamId::GateAttack),
        "gate_attack"@.len() == 11,
        set_param_names()[64] == ("attack"@, ParamId::GateAttack),
        "attack"@.len() == 6,
        set_param_names()[65] == ("atk"@, ParamId::GateAttack),
        "atk"@.len() == 3,
        set_param_names()[66] == ("gate_release"@, ParamId::GateRelease),
        "gate_release"@.len() == 12,
        set_param_names()[67] == ("release"@, ParamId::GateRelease),
        "release"@.len() == 7,
        set_param_names()[68] == ("rel"@, ParamId::GateRelease),
        "rel"@.len() == 3,
        set_param_names()[69] == ("bitcrush_bits"@, ParamId::BitcrushBits),
        "bitcrush_bits"@.len() == 13,
        set_param_names()[70] == ("bits"@, ParamId::BitcrushBits),
        "bits"@.len() == 4,
        set_param_names()[71] == ("bitcrush_downsample"@, ParamId::BitcrushDownsample),
        "bitcrush_downsample"@.len() == 19,
        set_param_names()[72] == ("downsample"@, ParamId::BitcrushDownsample),
        "downsample"@.len() == 10,
        set_param_names()[73] == ("down"@, ParamId::BitcrushDownsample),
        "down"@.len() == 4,
        set_param_names()[74] == ("bitcrush_mix"@, ParamId::BitcrushMix),
        "bitcrush_mix"@.len() == 12,
        set_param_names()[75] == ("bitcrush_mode"@, ParamId::BitcrushMode),
        "bitcrush_mode"@.len() == 13,
        set_param_names()[76] == ("mode"@, ParamId::BitcrushMode),
        "mode"@.len() == 4,
        set_param_names()[77] == ("overdrive_drive"@, ParamId::OverdriveDrive),
        "overdrive_drive"@.len() == 15,
        set_param_names()[78] == ("drive"@, ParamId::OverdriveDrive),
        "drive"@.len() == 5,
        set_param_names()[79] == ("overdrive_tone"@, ParamId::OverdriveTone),
        "overdrive_tone"@.len() == 14,
        set_param_names()[80] == ("tone"@, ParamId::OverdriveTone),
        "tone"@.len() == 4,
        set_param_names()[81] == ("overdrive_level"@, ParamId::OverdriveLevel),
        "overdrive_level"@.len() == 15,
        set_param_names()[82] == ("level"@, ParamId::OverdriveLevel),
        "level"@.len() == 5,
        set_param_names()[83] == ("overdrive_algo"@, ParamId::OverdriveAlgo),
        "overdrive_algo"@.len() == 14,
        set_param_names()[84] == ("algo"@, ParamId::OverdriveAlgo),
        "algo"@.len() == 4,
        set_param_names()[85] == ("eq_low_freq"@, ParamId::EqLowFreq),
        "eq_low_freq"@.len() == 11,
        set_param_names()[86] == ("eq_low_gain"@, ParamId::EqLowGain),
        "eq_low_gain"@.len() == 11,
        set_param_names()[87] == ("low_gain"@, ParamId::EqLowGain),
        "low_gain"@.len() == 8,
        set_param_names()[88] == ("log"@, ParamId::EqLowGain),
        "log"@.len() == 3,
        set_param_names()[89] == ("eq_mid_freq"@, ParamId::EqMidFreq),
        "eq_mid_freq"@.len() == 11,
        set_param_names()[90] == ("eq_mid_gain"@, ParamId::EqMidGain),
        "eq_mid_gain"@.len() == 11,
        set_param_names()[91] == ("mid_gain"@, ParamId::EqMidGain),
        "mid_gain"@.len() == 8,
        set_param_names()[92] == ("midg"@, ParamId::EqMidGain),
        "midg"@.len() == 4,
        set_param_names()[93] == ("eq_mid_q"@, ParamId::EqMidQ),
        "eq_mid_q"@.len() == 8,
        set_param_names()[94] == ("eq_high_freq"@, ParamId::EqHighFreq),
        "eq_high_freq"@.len() == 12,
        set_param_names()[95] == ("eq_high_gain"@, ParamId::EqHighGain),
        "eq_high_gain"@.len() == 12,
        set_param_names()[96] == ("high_gain"@, ParamId::EqHighGain),
        "high_gain"@.len() == 9,
        set_param_names()[97] == ("hig"@, ParamId::EqHighGain),
        "hig"@.len() == 3,
        set_param_names()[98] == ("amp_normalize"@, ParamId::AmpNormalize),
        "amp_normalize"@.len() == 13,
        set_param_names()[99] == ("snapshot"@, ParamId::Snapshot),
        "snapshot"@.len() == 8,
        set_param_names()[100] == ("macro_1"@, ParamId::Macro1),
        "macro_1"@.len() == 7,
        set_param_names()[101] == ("macro_2"@, ParamId::Macro2),
        "macro_2"@.len() == 7,
        set_param_names()[102] == ("macro_3"@, ParamId::Macro3),
        "macro_3"@.len() == 7,
        set_param_names()[103] == ("macro_4"@, ParamId::Macro4),
        "macro_4"@.len() == 7,
{
    reveal_strlit("input_gain");
    reveal_strlit("input");
    reveal_strlit("output_gain");
    reveal_strlit("output");
    reveal_strlit("mix");
    reveal_strlit("amp_gain");
    reveal_strlit("nam_gain");
    reveal_strlit("gain");
    reveal_strlit("amp_bass");
    reveal_strlit("bass");
    reveal_strlit("amp_middle");
    reveal_strlit("middle");
    reveal_strlit("mid");
    reveal_strlit("amp_high");
    reveal_strlit("high");
    reveal_strlit("treble");
    reveal_strlit("amp_output");
    reveal_strlit("amp_out");
    reveal_strlit("amp_bass_freq");
    reveal_strlit("bass_freq");
    reveal_strlit("amp_mid_freq");
    reveal_strlit("mid_freq");
    reveal_strlit("amp_high_freq");
    reveal_strlit("high_freq");
    reveal_strlit("cab_gain");
    reveal_strlit("cab_position");
    reveal_strlit("cab_pos");
    reveal_strlit("position");
    reveal_strlit("pos");
    reveal_strlit("cab_size");
    reveal_strlit("size");
    reveal_strlit("cab_normalize");
    reveal_strlit("pitch_gain");
    reveal_strlit("pitch_semi");
    reveal_strlit("semi");
    reveal_strlit("pitch_mix");
    reveal_strlit("auto_tune_toggle");
    reveal_strlit("auto_tune_key");
    reveal_strlit("auto_tune_scale");
    reveal_strlit("auto_tune_mode");
    reveal_strlit("auto_tune_speed");
    reveal_strlit("auto_tune_amount");
    reveal_strlit("delay_mix");
    reveal_strlit("delay_feedback");
    reveal_strlit("feedback");
    reveal_strlit("fdbk");
    reveal_strlit("delay_time");
    reveal_strlit("time");
    reveal_strlit("delay_ducking");
    reveal_strlit("delay_ping_pong");
    reveal_strlit("ping_pong");
    reveal_strlit("reverb_mix");
    reveal_strlit("verb_mix");
    reveal_strlit("shimmer_mix");
    reveal_strlit("reverb_space");
    reveal_strlit("verb_space");
    reveal_strlit("space");
    reveal_strlit("reverb_shimmer");
    reveal_strlit("shimmer");
    reveal_strlit("reverb_ducking");
    reveal_strlit("gate_threshold");
    reveal_strlit("threshold");
    reveal_strlit("thresh");
    reveal_strlit("gate_attack");
    reveal_strlit("attack");
    reveal_strlit("atk");
    reveal_strlit("gate_release");
    reveal_strlit("release");
    reveal_strlit("rel");
    reveal_strlit("bitcrush_bits");
    reveal_strlit("bits");
    reveal_strlit("bitcrush_downsample");
    reveal_strlit("downsample");
    reveal_strlit("down");
    reveal_strlit("bitcrush_mix");
    reveal_strlit("bitcrush_mode");
    reveal_strlit("mode");
    reveal_strlit("overdrive_drive");
    reveal_strlit("drive");
    reveal_strlit("overdrive_tone");
    reveal_strlit("tone");
    reveal_strlit("overdrive_level");
    reveal_strlit("level");
    reveal_strlit("overdrive_algo");
    reveal_strlit("algo");
    reveal_strlit("eq_low_freq");
    reveal_strlit("eq_low_gain");
    reveal_strlit("low_gain");
    reveal_strlit("log");
    reveal_strlit("eq_mid_freq");
    reveal_strlit("eq_mid_gain");
    reveal_strlit("mid_gain");
    reveal_strlit("midg");
    reveal_strlit("eq_mid_q");
    reveal_strlit("eq_high_freq");
    reveal_strlit("eq_high_gain");
    reveal_strlit("high_gain");
    reveal_strlit("hig");
    reveal_strlit("amp_normalize");
    reveal_strlit("snapshot");
    reveal_strlit("macro_1");
    reveal_strlit("macro_2");
    reveal_strlit("macro_3");
    reveal_strlit("macro_4");
}

proof fn lemma_knob_entries()
    ensures
        knob_params().len() == 31,
        knob_params()[0] == ("amp_gain"@, ParamId::NamGain),
        "amp_gain"@.len() == 8,
        knob_params()[1] == ("amp_bass"@, ParamId::AmpBass),
        "amp_bass"@.len() == 8,
        knob_params()[2] == ("amp_middle"@, ParamId::AmpMiddle),
        "amp_middle"@.len() == 10,
        knob_params()[3] == ("amp_high"@, ParamId::AmpHigh),
        "amp_high"@.len() == 8,
        knob_params()[4] == ("amp_output"@, ParamId::AmpOutput),
        "amp_output"@.len() == 10,
        knob_params()[5] == ("cab_gain"@, ParamId::CabGain),
        "cab_gain"@.len() == 8,
        knob_params()[6] == ("cab_position"@, ParamId::CabPosition),
        "cab_position"@.len() == 12,
        knob_params()[7] == ("cab_size"@, ParamId::CabSize),
        "cab_size"@.len() == 8,
        knob_params()[8] == ("pitch_gain"@, ParamId::PitchGain),
        "pitch_gain"@.len() == 10,
        knob_params()[9] == ("pitch_semi"@, ParamId::PitchSemi),
        "pitch_semi"@.len() == 10,
        knob_params()[10] == ("pitch_mix"@, ParamId::PitchMix),
        "pitch_mix"@.len() == 9,
        knob_params()[11] == ("delay_time"@, ParamId::DelayTime),
        "delay_time"@.len() == 10,
        knob_params()[12] == ("delay_feedback"@, ParamId::DelayFeedback),
        "delay_feedback"@.len() == 14,
        knob_params()[13] == ("delay_mix"@, ParamId::DelayMix),
        "delay_mix"@.len() == 9,
        knob_params()[14] == ("delay_ducking"@, ParamId::DelayDucking),
        "delay_ducking"@.len() == 13,
        knob_params()[15] == ("reverb_space"@, ParamId::ReverbSpace),
        "reverb_space"@.len() == 12,
        knob_params()[16] == ("reverb_mix"@, ParamId::ReverbMix),
        "reverb_mix"@.len() == 10,
        knob_params()[17] == ("reverb_shimmer"@, ParamId::ReverbShimmer),
        "reverb_shimmer"@.len() == 14,
        knob_params()[18] == ("reverb_ducking"@, ParamId::ReverbDucking),
        "reverb_ducking"@.len() == 14,
        knob_params()[19] == ("gate_threshold"@, ParamId::GateThreshold),
        "gate_threshold"@.len() == 14,
        knob_params()[20] == ("gate_attack"@, ParamId::GateAttack),
        "gate_attack"@.len() == 11,
        knob_params()[21] == ("gate_release"@, ParamId::GateRelease),
        "gate_release"@.len() == 12,
        knob_params()[22] == ("bitcrush_bits"@, ParamId::BitcrushBits),
        "bitcrush_bits"@.len() == 13,
        knob_params()[23] == ("bitcrush_downsample"@, ParamId::BitcrushDownsample),
        "bitcrush_downsample"@.len() == 19,
        knob_params()[24] == ("bitcrush_mix"@, ParamId::BitcrushMix),
        "bitcrush_mix"@.len() == 12,
        knob_params()[25] == ("overdrive_drive"@, ParamId::OverdriveDrive),
        "overdrive_drive"@.len() == 15,
        knob_params()[26] == ("overdrive_tone"@, ParamId::OverdriveTone),
        "overdrive_tone"@.len() == 14,
        knob_params()[27] == ("overdrive_level"@, ParamId::OverdriveLevel),
        "overdrive_level"@.len() == 15,
        knob_params()[28] == ("eq_low_gain"@, ParamId::EqLowGain),
        "eq_low_gain"@.len() == 11,
        knob_params()[29] == ("eq_mid_gain"@, ParamId::EqMidGain),
        "eq_mid_gain"@.len() == 11,
        knob_params()[30] == ("eq_high_gain"@, ParamId::EqHighGain),
        "eq_high_gain"@.len() == 12,
{
    reveal_strlit("amp_gain");
    reveal_strlit("amp_bass");
    reveal_strlit("amp_middle");
    reveal_strlit("amp_high");
    reveal_strlit("amp_output");
    reveal_strlit("cab_gain");
    reveal_strlit("cab_position");
    reveal_strlit("cab_size");
    reveal_strlit("pitch_gain");
    reveal_strlit("pitch_semi");
    reveal_strlit("pitch_mix");
    reveal_strlit("delay_time");
    reveal_strlit("delay_feedback");
    reveal_strlit("delay_mix");
    reveal_strlit("delay_ducking");
    reveal_strlit("reverb_space");
    reveal_strlit("reverb_mix");
    reveal_strlit("reverb_shimmer");
    reveal_strlit("reverb_ducking");
    reveal_strlit("gate_threshold");
    reveal_strlit("gate_attack");
    reveal_strlit("gate_release");
    reveal_strlit("bitcrush_bits");
    reveal_strlit("bitcrush_downsample");
    reveal_strlit("bitcrush_mix");
    reveal_strlit("overdrive_drive");
    reveal_strlit("overdrive_tone");
    reveal_strlit("overdrive_level");
    reveal_strlit("eq_low_gain");
    reveal_strlit("eq_mid_gain");
    reveal_strlit("eq_high_gain");
}

proof fn lemma_set_param_finds_amp_gain()
    ensures
        lookup(set_param_names(), "amp_gain"@) == Some(ParamId::NamGain),
{
    lemma_set_param_entries();
    reveal_with_fuel(absent_before, 6);
    assert(absent_before(set_param_names(), "amp_gain"@, 5));
    lemma_lookup_at(set_param_names(), "amp_gain"@, 5);
}

proof fn lemma_set_param_finds_amp_bass()
    ensures
        lookup(set_param_names(), "amp_bass"@) == Some(ParamId::AmpBass),
{
    lemma_set_param_entries();
    reveal_with_fuel(absent_before, 9);
    reveal_strlit("amp_gain");
    reveal_strlit("amp_bass");
    assert(set_param_names()[5].0[4] != "amp_bass"@[4]);
    reveal_strlit("nam_gain");
    reveal_strlit("amp_bass");
    assert(set_param_names()[6].0[0] != "amp_bass"@[0]);
    assert(absent_before(set_param_names(), "amp_bass"@, 8));
    lemma_lookup_at(set_param_names(), "amp_bass"@, 8);
}

proof fn lemma_set_param_finds_amp_middle()
    ensures
        lookup(set_param_names(), "amp_middle"@) == Some(ParamId::AmpMiddle),
{
    lemma_set_param_entries();
    reveal_with_fuel(absent_before, 11);
    reveal_strlit("input_gain");
    reveal_strlit("amp_middle");
    assert(set_param_names()[0].0[0] != "amp_middle"@[0]);
    assert(absent_before(set_param_names(), "amp_middle"@, 10));
    lemma_lookup_at(set_param_names(), "amp_middle"@, 10);
}

proof fn lemma_set_param_finds_amp_high()
    ensures
        lookup(set_param_names(), "amp_high"@) == Some(ParamId::AmpHigh),
{
    lemma_set_param_entries();
    reveal_with_fuel(absent_before, 14);
    reveal_strlit("amp_gain");
    reveal_strlit("amp_high");
    assert(set_param_names()[5].0[4] != "amp_high"@[4]);
    reveal_strlit("nam_gain");
    reveal_strlit("amp_high");
    assert(set_param_names()[6].0[0] != "amp_high"@[0]);
    reveal_strlit("amp_bass");
    reveal_strlit("amp_high");
    assert(set_param_names()[8].0[4] != "amp_high"@[4]);
    assert(absent_before(set_param_names(), "amp_high"@, 13));
    lemma_lookup_at(set_param_names(), "amp_high"@, 13);
}

proof fn lemma_set_param_finds_amp_output()
    ensures
        lookup(set_param_names(), "amp_output"@) == Some(ParamId::AmpOutput),
{
    lemma_set_param_entries();
    reveal_with_fuel(absent_before, 17);
    reveal_strlit("input_gain");
    reveal_strlit("amp_output");
    assert(set_param_names()[0].0[0] != "amp_output"@[0]);
    reveal_strlit("amp_middle");
    reveal_strlit("amp_output");
    assert(set_param_names()[10].0[4] != "amp_output"@[4]);
    assert(absent_before(set_param_names(), "amp_output"@, 16));
    lemma_lookup_at(set_param_names(), "amp_output"@, 16);
}

proof fn lemma_set_param_finds_cab_gain()
    ensures
        lookup(set_param_names(), "cab_gain"@) == Some(ParamId::CabGain),
{
    lemma_set_param_entries();
    reveal_with_fuel(absent_before, 25);
    reveal_strlit("amp_gain");
    reveal_strlit("cab_gain");
    assert(set_param_names()[5].0[0] != "cab_gain"@[0]);
    reveal_strlit("nam_gain");
    reveal_strlit("cab_gain");
    assert(set_param_names()[6].0[0] != "cab_gain"@[0]);
    reveal_strlit("amp_bass");
    reveal_strlit("cab_gain");
    assert(set_param_names()[8].0[0] != "cab_gain"@[0]);
    reveal_strlit("amp_high");
    reveal_strlit("cab_gain");
    assert(set_param_names()[13].0[0] != "cab_gain"@[0]);
    reveal_strlit("mid_freq");
    reveal_strlit("cab_gain");
    assert(set_param_names()[21].0[0] != "cab_gain"@[0]);
    assert(absent_before(set_param_names(), "cab_gain"@, 24));
    lemma_lookup_at(set_param_names(), "cab_gain"@, 24);
}

proof fn lemma_set_param_finds_cab_position()
    ensures
        lookup(set_param_names(), "cab_position"@) == Some(ParamId::CabPosition),
{
    lemma_set_param_entries();
    reveal_with_fuel(absent_before, 26);
    reveal_strlit("amp_mid_freq");
    reveal_strlit("cab_position");
    assert(set_param_names()[20].0[0] != "cab_position"@[0]);
    assert(absent_before(set_param_names(), "cab_position"@, 25));
    lemma_lookup_at(set_param_names(), "cab_position"@, 25);
}

proof fn lemma_set_param_finds_cab_size()
    ensures
        lookup(set_param_names(), "cab_size"@) == Some(ParamId::CabSize),
{
    lemma_set_param_entries();
    reveal_with_fuel(absent_before, 30);
    reveal_strlit("amp_gain");
    reveal_strlit("cab_size");
    assert(set_param_names()[5].0[0] != "cab_size"@[0]);
    reveal_strlit("nam_gain");
    reveal_strlit("cab_size");
    assert(set_param_names()[6].0[0] != "cab_size"@[0]);
    reveal_strlit("amp_bass");
    reveal_strlit("cab_size");
    assert(set_param_names()[8].0[0] != "cab_size"@[0]);
    reveal_strlit("amp_high");
    reveal_strlit("cab_size");
    assert(set_param_names()[13].0[0] != "cab_size"@[0]);
    reveal_strlit("mid_freq");
    reveal_strlit("cab_size");
    assert(set_param_names()[21].0[0] != "cab_size"@[0]);
    reveal_strlit("cab_gain");
    reveal_strlit("cab_size");
    assert(set_param_names()[24].0[4] != "cab_size"@[4]);
    reveal_strlit("position");
    reveal_strlit("cab_size");
    assert(set_param_names()[27].0[0] != "cab_size"@[0]);
    assert(absent_before(set_param_names(), "cab_size"@, 29));
    lemma_lookup_at(set_param_names(), "cab_size"@, 29);
}

proof fn lemma_set_param_finds_pitch_gain()
    ensures
        lookup(set_param_names(), "pitch_gain"@) == Some(ParamId::PitchGain),
{
    lemma_set_param_entries();
    reveal_with_fuel(absent_before, 33);
    reveal_strlit("input_gain");
    reveal_strlit("pitch_gain");
    assert(set_param_names()[0].0[0] != "pitch_gain"@[0]);
    reveal_strlit("amp_middle");
    reveal_strlit("pitch_gain");
    assert(set_param_names()[10].0[0] != "pitch_gain"@[0]);
    reveal_strlit("amp_output");
    reveal_strlit("pitch_gain");
    assert(set_param_names()[16].0[0] != "pitch_gain"@[0]);
    assert(absent_before(set_param_names(), "pitch_gain"@, 32));
    lemma_lookup_at(set_param_names(), "pitch_gain"@, 32);
}

proof fn lemma_set_param_finds_pitch_semi()
    ensures
        lookup(set_param_names(), "pitch_semi"@) == Some(ParamId::PitchSemi),
{
    lemma_set_param_entries();
    reveal_with_fuel(absent_before, 34);
    reveal_strlit("input_gain");
    reveal_strlit("pitch_semi");
    assert(set_param_names()[0].0[0] != "pitch_semi"@[0]);
    reveal_strlit("amp_middle");
    reveal_strlit("pitch_semi");
    assert(set_param_names()[10].0[0] != "pitch_semi"@[0]);
    reveal_strlit("amp_output");
    reveal_strlit("pitch_semi");
    assert(set_param_names()[16].0[0] != "pitch_semi"@[0]);
    reveal_strlit("pitch_gain");
    reveal_strlit("pitch_semi");
    assert(set_param_names()[32].0[6] != "pitch_semi"@[6]);
    assert(absent_before(set_param_names(), "pitch_semi"@, 33));
    lemma_lookup_at(set_param_names(), "pitch_semi"@, 33);
}

proof fn lemma_set_param_finds_pitch_mix()
    ensures
        lookup(set_param_names(), "pitch_mix"@) == Some(ParamId::PitchMix),
{
    lemma_set_param_entries();
    reveal_with_fuel(absent_before, 36);
    reveal_strlit("bass_freq");
    reveal_strlit("pitch_mix");
    assert(set_param_names()[19].0[0] != "pitch_mix"@[0]);
    reveal_strlit("high_freq");
    reveal_strlit("pitch_mix");
    assert(set_param_names()[23].0[0] != "pitch_mix"@[0]);
    assert(absent_before(set_param_names(), "pitch_mix"@, 35));
    lemma_lookup_at(set_param_names(), "pitch_mix"@, 35);
}

proof fn lemma_set_param_finds_delay_time()
    ensures
        lookup(set_param_names(), "delay_time"@) == Some(ParamId::DelayTime),
{
    lemma_set_param_entries();
    reveal_with_fuel(absent_before, 47);
    reveal_strlit("input_gain");
    reveal_strlit("delay_time");
    assert(set_param_names()[0].0[0] != "delay_time"@[0]);
    reveal_strlit("amp_middle");
    reveal_strlit("delay_time");
    assert(set_param_names()[10].0[0] != "delay_time"@[0]);
    reveal_strlit("amp_output");
    reveal_strlit("delay_time");
    assert(set_param_names()[16].0[0] != "delay_time"@[0]);
    reveal_strlit("pitch_gain");
    reveal_strlit("delay_time");
    assert(set_param_names()[32].0[0] != "delay_time"@[0]);
    reveal_strlit("pitch_semi");
    reveal_strlit("delay_time");
    assert(set_param_names()[33].0[0] != "delay_time"@[0]);
    assert(absent_before(set_param_names(), "delay_time"@, 46));
    lemma_lookup_at(set_param_names(), "delay_time"@, 46);
}

proof fn lemma_set_param_finds_delay_feedback()
    ensures
        lookup(set_param_names(), "delay_feedback"@) == Some(ParamId::DelayFeedback),
{
    lemma_set_param_entries();
    reveal_with_fuel(absent_before, 44);
    reveal_strlit("auto_tune_mode");
    reveal_strlit("delay_feedback");
    assert(set_param_names()[39].0[0] != "delay_feedback"@[0]);
    assert(absent_before(set_param_names(), "delay_feedback"@, 43));
    lemma_lookup_at(set_param_names(), "delay_feedback"@, 43);
}

proof fn lemma_set_param_finds_delay_mix()
    ensures
        lookup(set_param_names(), "delay_mix"@) == Some(ParamId::DelayMix),
{
    lemma_set_param_entries();
    reveal_with_fuel(absent_before, 43);
    reveal_strlit("bass_freq");
    reveal_strlit("delay_mix");
    assert(set_param_names()[19].0[0] != "delay_mix"@[0]);
    reveal_strlit("high_freq");
    reveal_strlit("delay_mix");
    assert(set_param_names()[23].0[0] != "delay_mix"@[0]);
    reveal_strlit("pitch_mix");
    reveal_strlit("delay_mix");
    assert(set_param_names()[35].0[0] != "delay_mix"@[0]);
    assert(absent_before(set_param_names(), "delay_mix"@, 42));
    lemma_lookup_at(set_param_names(), "delay_mix"@, 42);
}

proof fn lemma_set_param_finds_delay_ducking()
    ensures
        lookup(set_param_names(), "delay_ducking"@) == Some(ParamId::DelayDucking),
{
    lemma_set_param_entries();
    reveal_with_fuel(absent_before, 49);
    reveal_strlit("amp_bass_freq");
    reveal_strlit("delay_ducking");
    assert(set_param_names()[18].0[0] != "delay_ducking"@[0]);
    reveal_strlit("amp_high_freq");
    reveal_strlit("delay_ducking");
    assert(set_param_names()[22].0[0] != "delay_ducking"@[0]);
    reveal_strlit("cab_normalize");
    reveal_strlit("delay_ducking");
    assert(set_param_names()[31].0[0] != "delay_ducking"@[0]);
    reveal_strlit("auto_tune_key");
    reveal_strlit("delay_ducking");
    assert(set_param_names()[37].0[0] != "delay_ducking"@[0]);
    assert(absent_before(set_param_names(), "delay_ducking"@, 48));
    lemma_lookup_at(set_param_names(), "delay_ducking"@, 48);
}

proof fn lemma_set_param_finds_reverb_space()
    ensures
        lookup(set_param_names(), "reverb_space"@) == Some(ParamId::ReverbSpace),
{
    lemma_set_param_entries();
    reveal_with_fuel(absent_before, 55);
    reveal_strlit("amp_mid_freq");
    reveal_strlit("reverb_space");
    assert(set_param_names()[20].0[0] != "reverb_space"@[0]);
    reveal_strlit("cab_position");
    reveal_strlit("reverb_space");
    assert(set_param_names()[25].0[0] != "reverb_space"@[0]);
    assert(absent_before(set_param_names(), "reverb_space"@, 54));
    lemma_lookup_at(set_param_names(), "reverb_space"@, 54);
}

proof fn lemma_set_param_finds_reverb_mix()
    ensures
        lookup(set_param_names(), "reverb_mix"@) == Some(ParamId::ReverbMix),
{
    lemma_set_param_entries();
    reveal_with_fuel(absent_before, 52);
    reveal_strlit("input_gain");
    reveal_strlit("reverb_mix");
    assert(set_param_names()[0].0[0] != "reverb_mix"@[0]);
    reveal_strlit("amp_middle");
    reveal_strlit("reverb_mix");
    assert(set_param_names()[10].0[0] != "reverb_mix"@[0]);
    reveal_strlit("amp_output");
    reveal_strlit("reverb_mix");
    assert(set_param_names()[16].0[0] != "reverb_mix"@[0]);
    reveal_strlit("pitch_gain");
    reveal_strlit("reverb_mix");
    assert(set_param_names()[32].0[0] != "reverb_mix"@[0]);
    reveal_strlit("pitch_semi");
    reveal_strlit("reverb_mix");
    assert(set_param_names()[33].0[0] != "reverb_mix"@[0]);
    reveal_strlit("delay_time");
    reveal_strlit("reverb_mix");
    assert(set_param_names()[46].0[0] != "reverb_mix"@[0]);
    assert(absent_before(set_param_names(), "reverb_mix"@, 51));
    lemma_lookup_at(set_param_names(), "reverb_mix"@, 51);
}

proof fn lemma_set_param_finds_reverb_shimmer()
    ensures
        lookup(set_param_names(), "reverb_shimmer"@) == Some(ParamId::ReverbShimmer),
{
    lemma_set_param_entries();
    reveal_with_fuel(absent_before, 58);
    reveal_strlit("auto_tune_mode");
    reveal_strlit("reverb_shimmer");
    assert(set_param_names()[39].0[0] != "reverb_shimmer"@[0]);
    reveal_strlit("delay_feedback");
    reveal_strlit("reverb_shimmer");
    assert(set_param_names()[43].0[0] != "reverb_shimmer"@[0]);
    assert(absent_before(set_param_names(), "reverb_shimmer"@, 57));
    lemma_lookup_at(set_param_names(), "reverb_shimmer"@, 57);
}

proof fn lemma_set_param_finds_reverb_ducking()
    ensures
        lookup(set_param_names(), "reverb_ducking"@) == Some(ParamId::ReverbDucking),
{
    lemma_set_param_entries();
    reveal_with_fuel(absent_before, 60);
    reveal_strlit("auto_tune_mode");
    reveal_strlit("reverb_ducking");
    assert(set_param_names()[39].0[0] != "reverb_ducking"@[0]);
    reveal_strlit("delay_feedback");
    reveal_strlit("reverb_ducking");
    assert(set_param_names()[43].0[0] != "reverb_ducking"@[0]);
    reveal_strlit("reverb_shimmer");
    reveal_strlit("reverb_ducking");
    assert(set_param_names()[57].0[7] != "reverb_ducking"@[7]);
    assert(absent_before(set_param_names(), "reverb_ducking"@, 59));
    lemma_lookup_at(set_param_names(), "reverb_ducking"@, 59);
}

proof fn lemma_set_param_finds_gate_threshold()
    ensures
        lookup(set_param_names(), "gate_threshold"@) == Some(ParamId::GateThreshold),
{
    lemma_set_param_entries();
    reveal_with_fuel(absent_before, 61);
    reveal_strlit("auto_tune_mode");
    reveal_strlit("gate_threshold");
    assert(set_param_names()[39].0[0] != "gate_threshold"@[0]);
    reveal_strlit("delay_feedback");
    reveal_strlit("gate_threshold");
    assert(set_param_names()[43].0[0] != "gate_threshold"@[0]);
    reveal_strlit("reverb_shimmer");
    reveal_strlit("gate_threshold");
    assert(set_param_names()[57].0[0] != "gate_threshold"@[0]);
    reveal_strlit("reverb_ducking");
    reveal_strlit("gate_threshold");
    assert(set_param_names()[59].0[0] != "gate_threshold"@[0]);
    assert(absent_before(set_param_names(), "gate_threshold"@, 60));
    lemma_lookup_at(set_param_names(), "gate_threshold"@, 60);
}

proof fn lemma_set_param_finds_gate_attack()
    ensures
        lookup(set_param_names(), "gate_attack"@) == Some(ParamId::GateAttack),
{
    lemma_set_param_entries();
    reveal_with_fuel(absent_before, 64);
    reveal_strlit("output_gain");
    reveal_strlit("gate_attack");
    assert(set_param_names()[2].0[0] != "gate_attack"@[0]);
    reveal_strlit("shimmer_mix");
    reveal_strlit("gate_attack");
    assert(set_param_names()[53].0[0] != "gate_attack"@[0]);
    assert(absent_before(set_param_names(), "gate_attack"@, 63));
    lemma_lookup_at(set_param_names(), "gate_attack"@, 63);
}

proof fn lemma_set_param_finds_gate_release()
    ensures
        lookup(set_param_names(), "gate_release"@) == Some(ParamId::GateRelease),
{
    lemma_set_param_entries();
    reveal_with_fuel(absent_before, 67);
    reveal_strlit("amp_mid_freq");
    reveal_strlit("gate_release");
    assert(set_param_names()[20].0[0] != "gate_release"@[0]);
    reveal_strlit("cab_position");
    reveal_strlit("gate_release");
    assert(set_param_names()[25].0[0] != "gate_release"@[0]);
    reveal_strlit("reverb_space");
    reveal_strlit("gate_release");
    assert(set_param_names()[54].0[0] != "gate_release"@[0]);
    assert(absent_before(set_param_names(), "gate_release"@, 66));
    lemma_lookup_at(set_param_names(), "gate_release"@, 66);
}

proof fn lemma_set_param_finds_bitcrush_bits()
    ensures
        lookup(set_param_names(), "bitcrush_bits"@) == Some(ParamId::BitcrushBits),
{
    lemma_set_param_entries();
    reveal_with_fuel(absent_before, 70);
    reveal_strlit("amp_bass_freq");
    reveal_strlit("bitcrush_bits");
    assert(set_param_names()[18].0[0] != "bitcrush_bits"@[0]);
    reveal_strlit("amp_high_freq");
    reveal_strlit("bitcrush_bits");
    assert(set_param_names()[22].0[0] != "bitcrush_bits"@[0]);
    reveal_strlit("cab_normalize");
    reveal_strlit("bitcrush_bits");
    assert(set_param_names()[31].0[0] != "bitcrush_bits"@[0]);
    reveal_strlit("auto_tune_key");
    reveal_strlit("bitcrush_bits");
    assert(set_param_names()[37].0[0] != "bitcrush_bits"@[0]);
    reveal_strlit("delay_ducking");
    reveal_strlit("bitcrush_bits");
    assert(set_param_names()[48].0[0] != "bitcrush_bits"@[0]);
    assert(absent_before(set_param_names(), "bitcrush_bits"@, 69));
    lemma_lookup_at(set_param_names(), "bitcrush_bits"@, 69);
}

proof fn lemma_set_param_finds_bitcrush_downsample()
    ensures
        lookup(set_param_names(), "bitcrush_downsample"@) == Some(ParamId::BitcrushDownsample),
{
    lemma_set_param_entries();
    reveal_with_fuel(absent_before, 72);
    assert(absent_before(set_param_names(), "bitcrush_downsample"@, 71));
    lemma_lookup_at(set_param_names(), "bitcrush_downsample"@, 71);
}

proof fn lemma_set_param_finds_bitcrush_mix()
    ensures
        lookup(set_param_names(), "bitcrush_mix"@) == Some(ParamId::BitcrushMix),
{
    lemma_set_param_entries();
    reveal_with_fuel(absent_before, 75);
    reveal_strlit("amp_mid_freq");
    reveal_strlit("bitcrush_mix");
    assert(set_param_names()[20].0[0] != "bitcrush_mix"@[0]);
    reveal_strlit("cab_position");
    reveal_strlit("bitcrush_mix");
    assert(set_param_names()[25].0[0] != "bitcrush_mix"@[0]);
    reveal_strlit("reverb_space");
    reveal_strlit("bitcrush_mix");
    assert(set_param_names()[54].0[0] != "bitcrush_mix"@[0]);
    reveal_strlit("gate_release");
    reveal_strlit("bitcrush_mix");
    assert(set_param_names()[66].0[0] != "bitcrush_mix"@[0]);
    assert(absent_before(set_param_names(), "bitcrush_mix"@, 74));
    lemma_lookup_at(set_param_names(), "bitcrush_mix"@, 74);
}

proof fn lemma_set_param_finds_overdrive_drive()
    ensures
        lookup(set_param_names(), "overdrive_drive"@) == Some(ParamId::OverdriveDrive),
{
    lemma_set_param_entries();
    reveal_with_fuel(absent_before, 78);
    reveal_strlit("auto_tune_scale");
    reveal_strlit("overdrive_drive");
    assert(set_param_names()[38].0[0] != "overdrive_drive"@[0]);
    reveal_strlit("auto_tune_speed");
    reveal_strlit("overdrive_drive");
    assert(set_param_names()[40].0[0] != "overdrive_drive"@[0]);
    reveal_strlit("delay_ping_pong");
    reveal_strlit("overdrive_drive");
    assert(set_param_names()[49].0[0] != "overdrive_drive"@[0]);
    assert(absent_before(set_param_names(), "overdrive_drive"@, 77));
    lemma_lookup_at(set_param_names(), "overdrive_drive"@, 77);
}

proof fn lemma_set_param_finds_overdrive_tone()
    ensures
        lookup(set_param_names(), "overdrive_tone"@) == Some(ParamId::OverdriveTone),
{
    lemma_set_param_entries();
    reveal_with_fuel(absent_before, 80);
    reveal_strlit("auto_tune_mode");
    reveal_strlit("overdrive_tone");
    assert(set_param_names()[39].0[0] != "overdrive_tone"@[0]);
    reveal_strlit("delay_feedback");
    reveal_strlit("overdrive_tone");
    assert(set_param_names()[43].0[0] != "overdrive_tone"@[0]);
    reveal_strlit("reverb_shimmer");
    reveal_strlit("overdrive_tone");
    assert(set_param_names()[57].0[0] != "overdrive_tone"@[0]);
    reveal_strlit("reverb_ducking");
    reveal_strlit("overdrive_tone");
    assert(set_param_names()[59].0[0] != "overdrive_tone"@[0]);
    reveal_strlit("gate_threshold");
    reveal_strlit("overdrive_tone");
    assert(set_param_names()[60].0[0] != "overdrive_tone"@[0]);
    assert(absent_before(set_param_names(), "overdrive_tone"@, 79));
    lemma_lookup_at(set_param_names(), "overdrive_tone"@, 79);
}

proof fn lemma_set_param_finds_overdrive_level()
    ensures
        lookup(set_param_names(), "overdrive_level"@) == Some(ParamId::OverdriveLevel),
{
    lemma_set_param_entries();
    reveal_with_fuel(absent_before, 82);
    reveal_strlit("auto_tune_scale");
    reveal_strlit("overdrive_level");
    assert(set_param_names()[38].0[0] != "overdrive_level"@[0]);
    reveal_strlit("auto_tune_speed");
    reveal_strlit("overdrive_level");
    assert(set_param_names()[40].0[0] != "overdrive_level"@[0]);
    reveal_strlit("delay_ping_pong");
    reveal_strlit("overdrive_level");
    assert(set_param_names()[49].0[0] != "overdrive_level"@[0]);
    reveal_strlit("overdrive_drive");
    reveal_strlit("overdrive_level");
    assert(set_param_names()[77].0[10] != "overdrive_level"@[10]);
    assert(absent_before(set_param_names(), "overdrive_level"@, 81));
    lemma_lookup_at(set_param_names(), "overdrive_level"@, 81);
}

proof fn lemma_set_param_finds_eq_low_gain()
    ensures
        lookup(set_param_names(), "eq_low_gain"@) == Some(ParamId::EqLowGain),
{
    lemma_set_param_entries();
    reveal_with_fuel(absent_before, 87);
    reveal_strlit("output_gain");
    reveal_strlit("eq_low_gain");
    assert(set_param_names()[2].0[0] != "eq_low_gain"@[0]);
    reveal_strlit("shimmer_mix");
    reveal_strlit("eq_low_gain");
    assert(set_param_names()[53].0[0] != "eq_low_gain"@[0]);
    reveal_strlit("gate_attack");
    reveal_strlit("eq_low_gain");
    assert(set_param_names()[63].0[0] != "eq_low_gain"@[0]);
    reveal_strlit("eq_low_freq");
    reveal_strlit("eq_low_gain");
    assert(set_param_names()[85].0[7] != "eq_low_gain"@[7]);
    assert(absent_before(set_param_names(), "eq_low_gain"@, 86));
    lemma_lookup_at(set_param_names(), "eq_low_gain"@, 86);
}

proof fn lemma_set_param_finds_eq_mid_gain()
    ensures
        lookup(set_param_names(), "eq_mid_gain"@) == Some(ParamId::EqMidGain),
{
    lemma_set_param_entries();
    reveal_with_fuel(absent_before, 91);
    reveal_strlit("output_gain");
    reveal_strlit("eq_mid_gain");
    assert(set_param_names()[2].0[0] != "eq_mid_gain"@[0]);
    reveal_strlit("shimmer_mix");
    reveal_strlit("eq_mid_gain");
    assert(set_param_names()[53].0[0] != "eq_mid_gain"@[0]);
    reveal_strlit("gate_attack");
    reveal_strlit("eq_mid_gain");
    assert(set_param_names()[63].0[0] != "eq_mid_gain"@[0]);
    reveal_strlit("eq_low_freq");
    reveal_strlit("eq_mid_gain");
    assert(set_param_names()[85].0[3] != "eq_mid_gain"@[3]);
    reveal_strlit("eq_low_gain");
    reveal_strlit("eq_mid_gain");
    assert(set_param_names()[86].0[3] != "eq_mid_gain"@[3]);
    reveal_strlit("eq_mid_freq");
    reveal_strlit("eq_mid_gain");
    assert(set_param_names()[89].0[7] != "eq_mid_gain"@[7]);
    assert(absent_before(set_param_names(), "eq_mid_gain"@, 90));
    lemma_lookup_at(set_param_names(), "eq_mid_gain"@, 90);
}

proof fn lemma_set_param_finds_eq_high_gain()
    ensures
        lookup(set_param_names(), "eq_high_gain"@) == Some(ParamId::EqHighGain),
{
    lemma_set_param_entries();
    reveal_with_fuel(absent_before, 96);
    reveal_strlit("amp_mid_freq");
    reveal_strlit("eq_high_gain");
    assert(set_param_names()[20].0[0] != "eq_high_gain"@[0]);
    reveal_strlit("cab_position");
    reveal_strlit("eq_high_gain");
    assert(set_param_names()[25].0[0] != "eq_high_gain"@[0]);
    reveal_strlit("reverb_space");
    reveal_strlit("eq_high_gain");
    assert(set_param_names()[54].0[0] != "eq_high_gain"@[0]);
    reveal_strlit("gate_release");
    reveal_strlit("eq_high_gain");
    assert(set_param_names()[66].0[0] != "eq_high_gain"@[0]);
    reveal_strlit("bitcrush_mix");
    reveal_strlit("eq_high_gain");
    assert(set_param_names()[74].0[0] != "eq_high_gain"@[0]);
    reveal_strlit("eq_high_freq");
    reveal_strlit("eq_high_gain");
    assert(set_param_names()[94].0[8] != "eq_high_gain"@[8]);
    assert(absent_before(set_param_names(), "eq_high_gain"@, 95));
    lemma_lookup_at(set_param_names(), "eq_high_gain"@, 95);
}

proof fn lemma_set_param_finds_input()
    ensures
        lookup(set_param_names(), "input"@) == Some(ParamId::InputGain),
{
    lemma_set_param_entries();
    reveal_with_fuel(absent_before, 2);
    assert(absent_before(set_param_names(), "input"@, 1));
    lemma_lookup_at(set_param_names(), "input"@, 1);
}

proof fn lemma_set_param_finds_input_gain()
    ensures
        lookup(set_param_names(), "input_gain"@) == Some(ParamId::InputGain),
{
    lemma_set_param_entries();
    reveal_with_fuel(absent_before, 1);
    assert(absent_before(set_param_names(), "input_gain"@, 0));
    lemma_lookup_at(set_param_names(), "input_gain"@, 0);
}

proof fn lemma_set_param_finds_output()
    ensures
        lookup(set_param_names(), "output"@) == Some(ParamId::OutputGain),
{
    lemma_set_param_entries();
    reveal_with_fuel(absent_before, 4);
    assert(absent_before(set_param_names(), "output"@, 3));
    lemma_lookup_at(set_param_names(), "output"@, 3);
}

proof fn lemma_set_param_finds_output_gain()
    ensures
        lookup(set_param_names(), "output_gain"@) == Some(ParamId::OutputGain),
{
    lemma_set_param_entries();
    reveal_with_fuel(absent_before, 3);
    assert(absent_before(set_param_names(), "output_gain"@, 2));
    lemma_lookup_at(set_param_names(), "output_gain"@, 2);
}

proof fn lemma_set_param_finds_nam_gain()
    ensures
        lookup(set_param_names(), "nam_gain"@) == Some(ParamId::NamGain),
{
    lemma_set_param_entries();
    reveal_with_fuel(absent_before, 7);
    reveal_strlit("amp_gain");
    reveal_strlit("nam_gain");
    assert(set_param_names()[5].0[0] != "nam_gain"@[0]);
    assert(absent_before(set_param_names(), "nam_gain"@, 6));
    lemma_lookup_at(set_param_names(), "nam_gain"@, 6);
}

proof fn lemma_set_param_finds_gain()
    ensures
        lookup(set_param_names(), "gain"@) == Some(ParamId::NamGain),
{
    lemma_set_param_entries();
    reveal_with_fuel(absent_before, 8);
    assert(absent_before(set_param_names(), "gain"@, 7));
    lemma_lookup_at(set_param_names(), "gain"@, 7);
}

proof fn lemma_set_param_finds_bass()
    ensures
        lookup(set_param_names(), "bass"@) == Some(ParamId::AmpBass),
{
    lemma_set_param_entries();
    reveal_with_fuel(absent_before, 10);
    reveal_strlit("gain");
    reveal_strlit("bass");
    assert(set_param_names()[7].0[0] != "bass"@[0]);
    assert(absent_before(set_param_names(), "bass"@, 9));
    lemma_lookup_at(set_param_names(), "bass"@, 9);
}

proof fn lemma_set_param_finds_middle()
    ensures
        lookup(set_param_names(), "middle"@) == Some(ParamId::AmpMiddle),
{
    lemma_set_param_entries();
    reveal_with_fuel(absent_before, 12);
    reveal_strlit("output");
    reveal_strlit("middle");
    assert(set_param_names()[3].0[0] != "middle"@[0]);
    assert(absent_before(set_param_names(), "middle"@, 11));
    lemma_lookup_at(set_param_names(), "middle"@, 11);
}

proof fn lemma_set_param_finds_mid()
    ensures
        lookup(set_param_names(), "mid"@) == Some(ParamId::AmpMiddle),
{
    lemma_set_param_entries();
    reveal_with_fuel(absent_before, 13);
    reveal_strlit("mix");
    reveal_strlit("mid");
    assert(set_param_names()[4].0[2] != "mid"@[2]);
    assert(absent_before(set_param_names(), "mid"@, 12));
    lemma_lookup_at(set_param_names(), "mid"@, 12);
}

proof fn lemma_set_param_finds_high()
    ensures
        lookup(set_param_names(), "high"@) == Some(ParamId::AmpHigh),
{
    lemma_set_param_entries();
    reveal_with_fuel(absent_before, 15);
    reveal_strlit("gain");
    reveal_strlit("high");
    assert(set_param_names()[7].0[0] != "high"@[0]);
    reveal_strlit("bass");
    reveal_strlit("high");
    assert(set_param_names()[9].0[0] != "high"@[0]);
    assert(absent_before(set_param_names(), "high"@, 14));
    lemma_lookup_at(set_param_names(), "high"@, 14);
}

proof fn lemma_set_param_finds_treble()
    ensures
        lookup(set_param_names(), "treble"@) == Some(ParamId::AmpHigh),
{
    lemma_set_param_entries();
    reveal_with_fuel(absent_before, 16);
    reveal_strlit("output");
    reveal_strlit("treble");
    assert(set_param_names()[3].0[0] != "treble"@[0]);
    reveal_strlit("middle");
    reveal_strlit("treble");
    assert(set_param_names()[11].0[0] != "treble"@[0]);
    assert(absent_before(set_param_names(), "treble"@, 15));
    lemma_lookup_at(set_param_names(), "treble"@, 15);
}

proof fn lemma_set_param_finds_amp_out()
    ensures
        lookup(set_param_names(), "amp_out"@) == Some(ParamId::AmpOutput),
{
    lemma_set_param_entries();
    reveal_with_fuel(absent_before, 18);
    assert(absent_before(set_param_names(), "amp_out"@, 17));
    lemma_lookup_at(set_param_names(), "amp_out"@, 17);
}

proof fn lemma_set_param_finds_bass_freq()
    ensures
        lookup(set_param_names(), "bass_freq"@) == Some(ParamId::AmpBassFreq),
{
    lemma_set_param_entries();
    reveal_with_fuel(absent_before, 20);
    assert(absent_before(set_param_names(), "bass_freq"@, 19));
    lemma_lookup_at(set_param_names(), "bass_freq"@, 19);
}

proof fn lemma_set_param_finds_amp_bass_freq()
    ensures
        lookup(set_param_names(), "amp_bass_freq"@) == Some(ParamId::AmpBassFreq),
{
    lemma_set_param_entries();
    reveal_with_fuel(absent_before, 19);
    assert(absent_before(set_param_names(), "amp_bass_freq"@, 18));
    lemma_lookup_at(set_param_names(), "amp_bass_freq"@, 18);
}

proof fn lemma_set_param_finds_mid_freq()
    ensures
        lookup(set_param_names(), "mid_freq"@) == Some(ParamId::AmpMidFreq),
{
    lemma_set_param_entries();
    reveal_with_fuel(absent_before, 22);
    reveal_strlit("amp_gain");
    reveal_strlit("mid_freq");
    assert(set_param_names()[5].0[0] != "mid_freq"@[0]);
    reveal_strlit("nam_gain");
    reveal_strlit("mid_freq");
    assert(set_param_names()[6].0[0] != "mid_freq"@[0]);
    reveal_strlit("amp_bass");
    reveal_strlit("mid_freq");
    assert(set_param_names()[8].0[0] != "mid_freq"@[0]);
    reveal_strlit("amp_high");
    reveal_strlit("mid_freq");
    assert(set_param_names()[13].0[0] != "mid_freq"@[0]);
    assert(absent_before(set_param_names(), "mid_freq"@, 21));
    lemma_lookup_at(set_param_names(), "mid_freq"@, 21);
}

proof fn lemma_set_param_finds_amp_mid_freq()
    ensures
        lookup(set_param_names(), "amp_mid_freq"@) == Some(ParamId::AmpMidFreq),
{
    lemma_set_param_entries();
    reveal_with_fuel(absent_before, 21);
    assert(absent_before(set_param_names(), "amp_mid_freq"@, 20));
    lemma_lookup_at(set_param_names(), "amp_mid_freq"@, 20);
}

proof fn lemma_set_param_finds_high_freq()
    ensures
        lookup(set_param_names(), "high_freq"@) == Some(ParamId::AmpHighFreq),
{
    lemma_set_param_entries();
    reveal_with_fuel(absent_before, 24);
    reveal_strlit("bass_freq");
    reveal_strlit("high_freq");
    assert(set_param_names()[19].0[0] != "high_freq"@[0]);
    assert(absent_before(set_param_names(), "high_freq"@, 23));
    lemma_lookup_at(set_param_names(), "high_freq"@, 23);
}

proof fn lemma_set_param_finds_amp_high_freq()
    ensures
        lookup(set_param_names(), "amp_high_freq"@) == Some(ParamId::AmpHighFreq),
{
    lemma_set_param_entries();
    reveal_with_fuel(absent_before, 23);
    reveal_strlit("amp_bass_freq");
    reveal_strlit("amp_high_freq");
    assert(set_param_names()[18].0[4] != "amp_high_freq"@[4]);
    assert(absent_before(set_param_names(), "amp_high_freq"@, 22));
    lemma_lookup_at(set_param_names(), "amp_high_freq"@, 22);
}

proof fn lemma_set_param_finds_cab_pos()
    ensures
        lookup(set_param_names(), "cab_pos"@) == Some(ParamId::CabPosition),
{
    lemma_set_param_entries();
    reveal_with_fuel(absent_before, 27);
    reveal_strlit("amp_out");
    reveal_strlit("cab_pos");
    assert(set_param_names()[17].0[0] != "cab_pos"@[0]);
    assert(absent_before(set_param_names(), "cab_pos"@, 26));
    lemma_lookup_at(set_param_names(), "cab_pos"@, 26);
}

proof fn lemma_set_param_finds_position()
    ensures
        lookup(set_param_names(), "position"@) == Some(ParamId::CabPosition),
{
    lemma_set_param_entries();
    reveal_with_fuel(absent_before, 28);
    reveal_strlit("amp_gain");
    reveal_strlit("position");
    assert(set_param_names()[5].0[0] != "position"@[0]);
    reveal_strlit("nam_gain");
    reveal_strlit("position");
    assert(set_param_names()[6].0[0] != "position"@[0]);
    reveal_strlit("amp_bass");
    reveal_strlit("position");
    assert(set_param_names()[8].0[0] != "position"@[0]);
    reveal_strlit("amp_high");
    reveal_strlit("position");
    assert(set_param_names()[13].0[0] != "position"@[0]);
    reveal_strlit("mid_freq");
    reveal_strlit("position");
    assert(set_param_names()[21].0[0] != "position"@[0]);
    reveal_strlit("cab_gain");
    reveal_strlit("position");
    assert(set_param_names()[24].0[0] != "position"@[0]);
    assert(absent_before(set_param_names(), "position"@, 27));
    lemma_lookup_at(set_param_names(), "position"@, 27);
}

proof fn lemma_set_param_finds_pos()
    ensures
        lookup(set_param_names(), "pos"@) == Some(ParamId::CabPosition),
{
    lemma_set_param_entries();
    reveal_with_fuel(absent_before, 29);
    reveal_strlit("mix");
    reveal_strlit("pos");
    assert(set_param_names()[4].0[0] != "pos"@[0]);
    reveal_strlit("mid");
    reveal_strlit("pos");
    assert(set_param_names()[12].0[0] != "pos"@[0]);
    assert(absent_before(set_param_names(), "pos"@, 28));
    lemma_lookup_at(set_param_names(), "pos"@, 28);
}

proof fn lemma_set_param_finds_size()
    ensures
        lookup(set_param_names(), "size"@) == Some(ParamId::CabSize),
{
    lemma_set_param_entries();
    reveal_with_fuel(absent_before, 31);
    reveal_strlit("gain");
    reveal_strlit("size");
    assert(set_param_names()[7].0[0] != "size"@[0]);
    reveal_strlit("bass");
    reveal_strlit("size");
    assert(set_param_names()[9].0[0] != "size"@[0]);
    reveal_strlit("high");
    reveal_strlit("size");
    assert(set_param_names()[14].0[0] != "size"@[0]);
    assert(absent_before(set_param_names(), "size"@, 30));
    lemma_lookup_at(set_param_names(), "size"@, 30);
}

proof fn lemma_set_param_finds_semi()
    ensures
        lookup(set_param_names(), "semi"@) == Some(ParamId::PitchSemi),
{
    lemma_set_param_entries();
    reveal_with_fuel(absent_before, 35);
    reveal_strlit("gain");
    reveal_strlit("semi");
    assert(set_param_names()[7].0[0] != "semi"@[0]);
    reveal_strlit("bass");
    reveal_strlit("semi");
    assert(set_param_names()[9].0[0] != "semi"@[0]);
    reveal_strlit("high");
    reveal_strlit("semi");
    assert(set_param_names()[14].0[0] != "semi"@[0]);
    reveal_strlit("size");
    reveal_strlit("semi");
    assert(set_param_names()[30].0[1] != "semi"@[1]);
    assert(absent_before(set_param_names(), "semi"@, 34));
    lemma_lookup_at(set_param_names(), "semi"@, 34);
}

proof fn lemma_set_param_finds_feedback()
    ensures
        lookup(set_param_names(), "feedback"@) == Some(ParamId::DelayFeedback),
{
    lemma_set_param_entries();
    reveal_with_fuel(absent_before, 45);
    reveal_strlit("amp_gain");
    reveal_strlit("feedback");
    assert(set_param_names()[5].0[0] != "feedback"@[0]);
    reveal_strlit("nam_gain");
    reveal_strlit("feedback");
    assert(set_param_names()[6].0[0] != "feedback"@[0]);
    reveal_strlit("amp_bass");
    reveal_strlit("feedback");
    assert(set_param_names()[8].0[0] != "feedback"@[0]);
    reveal_strlit("amp_high");
    reveal_strlit("feedback");
    assert(set_param_names()[13].0[0] != "feedback"@[0]);
    reveal_strlit("mid_freq");
    reveal_strlit("feedback");
    assert(set_param_names()[21].0[0] != "feedback"@[0]);
    reveal_strlit("cab_gain");
    reveal_strlit("feedback");
    assert(set_param_names()[24].0[0] != "feedback"@[0]);
    reveal_strlit("position");
    reveal_strlit("feedback");
    assert(set_param_names()[27].0[0] != "feedback"@[0]);
    reveal_strlit("cab_size");
    reveal_strlit("feedback");
    assert(set_param_names()[29].0[0] != "feedback"@[0]);
    assert(absent_before(set_param_names(), "feedback"@, 44));
    lemma_lookup_at(set_param_names(), "feedback"@, 44);
}

proof fn lemma_set_param_finds_fdbk()
    ensures
        lookup(set_param_names(), "fdbk"@) == Some(ParamId::DelayFeedback),
{
    lemma_set_param_entries();
    reveal_with_fuel(absent_before, 46);
    reveal_strlit("gain");
    reveal_strlit("fdbk");
    assert(set_param_names()[7].0[0] != "fdbk"@[0]);
    reveal_strlit("bass");
    reveal_strlit("fdbk");
    assert(set_param_names()[9].0[0] != "fdbk"@[0]);
    reveal_strlit("high");
    reveal_strlit("fdbk");
    assert(set_param_names()[14].0[0] != "fdbk"@[0]);
    reveal_strlit("size");
    reveal_strlit("fdbk");
    assert(set_param_names()[30].0[0] != "fdbk"@[0]);
    reveal_strlit("semi");
    reveal_strlit("fdbk");
    assert(set_param_names()[34].0[0] != "fdbk"@[0]);
    assert(absent_before(set_param_names(), "fdbk"@, 45));
    lemma_lookup_at(set_param_names(), "fdbk"@, 45);
}

proof fn lemma_set_param_finds_time()
    ensures
        lookup(set_param_names(), "time"@) == Some(ParamId::DelayTime),
{
    lemma_set_param_entries();
    reveal_with_fuel(absent_before, 48);
    reveal_strlit("gain");
    reveal_strlit("time");
    assert(set_param_names()[7].0[0] != "time"@[0]);
    reveal_strlit("bass");
    reveal_strlit("time");
    assert(set_param_names()[9].0[0] != "time"@[0]);
    reveal_strlit("high");
    reveal_strlit("time");
    assert(set_param_names()[14].0[0] != "time"@[0]);
    reveal_strlit("size");
    reveal_strlit("time");
    assert(set_param_names()[30].0[0] != "time"@[0]);
    reveal_strlit("semi");
    reveal_strlit("time");
    assert(set_param_names()[34].0[0] != "time"@[0]);
    reveal_strlit("fdbk");
    reveal_strlit("time");
    assert(set_param_names()[45].0[0] != "time"@[0]);
    assert(absent_before(set_param_names(), "time"@, 47));
    lemma_lookup_at(set_param_names(), "time"@, 47);
}

proof fn lemma_set_param_finds_ping_pong()
    ensures
        lookup(set_param_names(), "ping_pong"@) == Some(ParamId::DelayPingPong),
{
    lemma_set_param_entries();
    reveal_with_fuel(absent_before, 51);
    reveal_strlit("bass_freq");
    reveal_strlit("ping_pong");
    assert(set_param_names()[19].0[0] != "ping_pong"@[0]);
    reveal_strlit("high_freq");
    reveal_strlit("ping_pong");
    assert(set_param_names()[23].0[0] != "ping_pong"@[0]);
    reveal_strlit("pitch_mix");
    reveal_strlit("ping_pong");
    assert(set_param_names()[35].0[2] != "ping_pong"@[2]);
    reveal_strlit("delay_mix");
    reveal_strlit("ping_pong");
    assert(set_param_names()[42].0[0] != "ping_pong"@[0]);
    assert(absent_before(set_param_names(), "ping_pong"@, 50));
    lemma_lookup_at(set_param_names(), "ping_pong"@, 50);
}

proof fn lemma_set_param_finds_delay_ping_pong()
    ensures
        lookup(set_param_names(), "delay_ping_pong"@) == Some(ParamId::DelayPingPong),
{
    lemma_set_param_entries();
    reveal_with_fuel(absent_before, 50);
    reveal_strlit("auto_tune_scale");
    reveal_strlit("delay_ping_pong");
    assert(set_param_names()[38].0[0] != "delay_ping_pong"@[0]);
    reveal_strlit("auto_tune_speed");
    reveal_strlit("delay_ping_pong");
    assert(set_param_names()[40].0[0] != "delay_ping_pong"@[0]);
    assert(absent_before(set_param_names(), "delay_ping_pong"@, 49));
    lemma_lookup_at(set_param_names(), "delay_ping_pong"@, 49);
}

proof fn lemma_set_param_finds_verb_mix()
    ensures
        lookup(set_param_names(), "verb_mix"@) == Some(ParamId::ReverbMix),
{
    lemma_set_param_entries();
    reveal_with_fuel(absent_before, 53);
    reveal_strlit("amp_gain");
    reveal_strlit("verb_mix");
    assert(set_param_names()[5].0[0] != "verb_mix"@[0]);
    reveal_strlit("nam_gain");
    reveal_strlit("verb_mix");
    assert(set_param_names()[6].0[0] != "verb_mix"@[0]);
    reveal_strlit("amp_bass");
    reveal_strlit("verb_mix");
    assert(set_param_names()[8].0[0] != "verb_mix"@[0]);
    reveal_strlit("amp_high");
    reveal_strlit("verb_mix");
    assert(set_param_names()[13].0[0] != "verb_mix"@[0]);
    reveal_strlit("mid_freq");
    reveal_strlit("verb_mix");
    assert(set_param_names()[21].0[0] != "verb_mix"@[0]);
    reveal_strlit("cab_gain");
    reveal_strlit("verb_mix");
    assert(set_param_names()[24].0[0] != "verb_mix"@[0]);
    reveal_strlit("position");
    reveal_strlit("verb_mix");
    assert(set_param_names()[27].0[0] != "verb_mix"@[0]);
    reveal_strlit("cab_size");
    reveal_strlit("verb_mix");
    assert(set_param_names()[29].0[0] != "verb_mix"@[0]);
    reveal_strlit("feedback");
    reveal_strlit("verb_mix");
    assert(set_param_names()[44].0[0] != "verb_mix"@[0]);
    assert(absent_before(set_param_names(), "verb_mix"@, 52));
    lemma_lookup_at(set_param_names(), "verb_mix"@, 52);
}

proof fn lemma_set_param_finds_shimmer_mix()
    ensures
        lookup(set_param_names(), "shimmer_mix"@) == Some(ParamId::ReverbMix),
{
    lemma_set_param_entries();
    reveal_with_fuel(absent_before, 54);
    reveal_strlit("output_gain");
    reveal_strlit("shimmer_mix");
    assert(set_param_names()[2].0[0] != "shimmer_mix"@[0]);
    assert(absent_before(set_param_names(), "shimmer_mix"@, 53));
    lemma_lookup_at(set_param_names(), "shimmer_mix"@, 53);
}

proof fn lemma_set_param_finds_verb_space()
    ensures
        lookup(set_param_names(), "verb_space"@) == Some(ParamId::ReverbSpace),
{
    lemma_set_param_entries();
    reveal_with_fuel(absent_before, 56);
    reveal_strlit("input_gain");
    reveal_strlit("verb_space");
    assert(set_param_names()[0].0[0] != "verb_space"@[0]);
    reveal_strlit("amp_middle");
    reveal_strlit("verb_space");
    assert(set_param_names()[10].0[0] != "verb_space"@[0]);
    reveal_strlit("amp_output");
    reveal_strlit("verb_space");
    assert(set_param_names()[16].0[0] != "verb_space"@[0]);
    reveal_strlit("pitch_gain");
    reveal_strlit("verb_space");
    assert(set_param_names()[32].0[0] != "verb_space"@[0]);
    reveal_strlit("pitch_semi");
    reveal_strlit("verb_space");
    assert(set_param_names()[33].0[0] != "verb_space"@[0]);
    reveal_strlit("delay_time");
    reveal_strlit("verb_space");
    assert(set_param_names()[46].0[0] != "verb_space"@[0]);
    reveal_strlit("reverb_mix");
    reveal_strlit("verb_space");
    assert(set_param_names()[51].0[0] != "verb_space"@[0]);
    assert(absent_before(set_param_names(), "verb_space"@, 55));
    lemma_lookup_at(set_param_names(), "verb_space"@, 55);
}

proof fn lemma_set_param_finds_space()
    ensures
        lookup(set_param_names(), "space"@) == Some(ParamId::ReverbSpace),
{
    lemma_set_param_entries();
    reveal_with_fuel(absent_before, 57);
    reveal_strlit("input");
    reveal_strlit("space");
    assert(set_param_names()[1].0[0] != "space"@[0]);
    assert(absent_before(set_param_names(), "space"@, 56));
    lemma_lookup_at(set_param_names(), "space"@, 56);
}

proof fn lemma_set_param_finds_shimmer()
    ensures
        lookup(set_param_names(), "shimmer"@) == Some(ParamId::ReverbShimmer),
{
    lemma_set_param_entries();
    reveal_with_fuel(absent_before, 59);
    reveal_strlit("amp_out");
    reveal_strlit("shimmer");
    assert(set_param_names()[17].0[0] != "shimmer"@[0]);
    reveal_strlit("cab_pos");
    reveal_strlit("shimmer");
    assert(set_param_names()[26].0[0] != "shimmer"@[0]);
    assert(absent_before(set_param_names(), "shimmer"@, 58));
    lemma_lookup_at(set_param_names(), "shimmer"@, 58);
}

proof fn lemma_set_param_finds_threshold()
    ensures
        lookup(set_param_names(), "threshold"@) == Some(ParamId::GateThreshold),
{
    lemma_set_param_entries();
    reveal_with_fuel(absent_before, 62);
    reveal_strlit("bass_freq");
    reveal_strlit("threshold");
    assert(set_param_names()[19].0[0] != "threshold"@[0]);
    reveal_strlit("high_freq");
    reveal_strlit("threshold");
    assert(set_param_names()[23].0[0] != "threshold"@[0]);
    reveal_strlit("pitch_mix");
    reveal_strlit("threshold");
    assert(set_param_names()[35].0[0] != "threshold"@[0]);
    reveal_strlit("delay_mix");
    reveal_strlit("threshold");
    assert(set_param_names()[42].0[0] != "threshold"@[0]);
    reveal_strlit("ping_pong");
    reveal_strlit("threshold");
    assert(set_param_names()[50].0[0] != "threshold"@[0]);
    assert(absent_before(set_param_names(), "threshold"@, 61));
    lemma_lookup_at(set_param_names(), "threshold"@, 61);
}

proof fn lemma_set_param_finds_thresh()
    ensures
        lookup(set_param_names(), "thresh"@) == Some(ParamId::GateThreshold),
{
    lemma_set_param_entries();
    reveal_with_fuel(absent_before, 63);
    reveal_strlit("output");
    reveal_strlit("thresh");
    assert(set_param_names()[3].0[0] != "thresh"@[0]);
    reveal_strlit("middle");
    reveal_strlit("thresh");
    assert(set_param_names()[11].0[0] != "thresh"@[0]);
    reveal_strlit("treble");
    reveal_strlit("thresh");
    assert(set_param_names()[15].0[1] != "thresh"@[1]);
    assert(absent_before(set_param_names(), "thresh"@, 62));
    lemma_lookup_at(set_param_names(), "thresh"@, 62);
}

proof fn lemma_set_param_finds_attack()
    ensures
        lookup(set_param_names(), "attack"@) == Some(ParamId::GateAttack),
{
    lemma_set_param_entries();
    reveal_with_fuel(absent_before, 65);
    reveal_strlit("output");
    reveal_strlit("attack");
    assert(set_param_names()[3].0[0] != "attack"@[0]);
    reveal_strlit("middle");
    reveal_strlit("attack");
    assert(set_param_names()[11].0[0] != "attack"@[0]);
    reveal_strlit("treble");
    reveal_strlit("attack");
    assert(set_param_names()[15].0[0] != "attack"@[0]);
    reveal_strlit("thresh");
    reveal_strlit("attack");
    assert(set_param_names()[62].0[0] != "attack"@[0]);
    assert(absent_before(set_param_names(), "attack"@, 64));
    lemma_lookup_at(set_param_names(), "attack"@, 64);
}

proof fn lemma_set_param_finds_atk()
    ensures
        lookup(set_param_names(), "atk"@) == Some(ParamId::GateAttack),
{
    lemma_set_param_entries();
    reveal_with_fuel(absent_before, 66);
    reveal_strlit("mix");
    reveal_strlit("atk");
    assert(set_param_names()[4].0[0] != "atk"@[0]);
    reveal_strlit("mid");
    reveal_strlit("atk");
    assert(set_param_names()[12].0[0] != "atk"@[0]);
    reveal_strlit("pos");
    reveal_strlit("atk");
    assert(set_param_names()[28].0[0] != "atk"@[0]);
    assert(absent_before(set_param_names(), "atk"@, 65));
    lemma_lookup_at(set_param_names(), "atk"@, 65);
}

proof fn lemma_set_param_finds_release()
    ensures
        lookup(set_param_names(), "release"@) == Some(ParamId::GateRelease),
{
    lemma_set_param_entries();
    reveal_with_fuel(absent_before, 68);
    reveal_strlit("amp_out");
    reveal_strlit("release");
    assert(set_param_names()[17].0[0] != "release"@[0]);
    reveal_strlit("cab_pos");
    reveal_strlit("release");
    assert(set_param_names()[26].0[0] != "release"@[0]);
    reveal_strlit("shimmer");
    reveal_strlit("release");
    assert(set_param_names()[58].0[0] != "release"@[0]);
    assert(absent_before(set_param_names(), "release"@, 67));
    lemma_lookup_at(set_param_names(), "release"@, 67);
}

proof fn lemma_set_param_finds_rel()
    ensures
        lookup(set_param_names(), "rel"@) == Some(ParamId::GateRelease),
{
    lemma_set_param_entries();
    reveal_with_fuel(absent_before, 69);
    reveal_strlit("mix");
    reveal_strlit("rel");
    assert(set_param_names()[4].0[0] != "rel"@[0]);
    reveal_strlit("mid");
    reveal_strlit("rel");
    assert(set_param_names()[12].0[0] != "rel"@[0]);
    reveal_strlit("pos");
    reveal_strlit("rel");
    assert(set_param_names()[28].0[0] != "rel"@[0]);
    reveal_strlit("atk");
    reveal_strlit("rel");
    assert(set_param_names()[65].0[0] != "rel"@[0]);
    assert(absent_before(set_param_names(), "rel"@, 68));
    lemma_lookup_at(set_param_names(), "rel"@, 68);
}

proof fn lemma_set_param_finds_bits()
    ensures
        lookup(set_param_names(), "bits"@) == Some(ParamId::BitcrushBits),
{
    lemma_set_param_entries();
    reveal_with_fuel(absent_before, 71);
    reveal_strlit("gain");
    reveal_strlit("bits");
    assert(set_param_names()[7].0[0] != "bits"@[0]);
    reveal_strlit("bass");
    reveal_strlit("bits");
    assert(set_param_names()[9].0[1] != "bits"@[1]);
    reveal_strlit("high");
    reveal_strlit("bits");
    assert(set_param_names()[14].0[0] != "bits"@[0]);
    reveal_strlit("size");
    reveal_strlit("bits");
    assert(set_param_names()[30].0[0] != "bits"@[0]);
    reveal_strlit("semi");
    reveal_strlit("bits");
    assert(set_param_names()[34].0[0] != "bits"@[0]);
    reveal_strlit("fdbk");
    reveal_strlit("bits");
    assert(set_param_names()[45].0[0] != "bits"@[0]);
    reveal_strlit("time");
    reveal_strlit("bits");
    assert(set_param_names()[47].0[0] != "bits"@[0]);
    assert(absent_before(set_param_names(), "bits"@, 70));
    lemma_lookup_at(set_param_names(), "bits"@, 70);
}

proof fn lemma_set_param_finds_downsample()
    ensures
        lookup(set_param_names(), "downsample"@) == Some(ParamId::BitcrushDownsample),
{
    lemma_set_param_entries();
    reveal_with_fuel(absent_before, 73);
    reveal_strlit("input_gain");
    reveal_strlit("downsample");
    assert(set_param_names()[0].0[0] != "downsample"@[0]);
    reveal_strlit("amp_middle");
    reveal_strlit("downsample");
    assert(set_param_names()[10].0[0] != "downsample"@[0]);
    reveal_strlit("amp_output");
    reveal_strlit("downsample");
    assert(set_param_names()[16].0[0] != "downsample"@[0]);
    reveal_strlit("pitch_gain");
    reveal_strlit("downsample");
    assert(set_param_names()[32].0[0] != "downsample"@[0]);
    reveal_strlit("pitch_semi");
    reveal_strlit("downsample");
    assert(set_param_names()[33].0[0] != "downsample"@[0]);
    reveal_strlit("delay_time");
    reveal_strlit("downsample");
    assert(set_param_names()[46].0[1] != "downsample"@[1]);
    reveal_strlit("reverb_mix");
    reveal_strlit("downsample");
    assert(set_param_names()[51].0[0] != "downsample"@[0]);
    reveal_strlit("verb_space");
    reveal_strlit("downsample");
    assert(set_param_names()[55].0[0] != "downsample"@[0]);
    assert(absent_before(set_param_names(), "downsample"@, 72));
    lemma_lookup_at(set_param_names(), "downsample"@, 72);
}

proof fn lemma_set_param_finds_down()
    ensures
        lookup(set_param_names(), "down"@) == Some(ParamId::BitcrushDownsample),
{
    lemma_set_param_entries();
    reveal_with_fuel(absent_before, 74);
    reveal_strlit("gain");
    reveal_strlit("down");
    assert(set_param_names()[7].0[0] != "down"@[0]);
    reveal_strlit("bass");
    reveal_strlit("down");
    assert(set_param_names()[9].0[0] != "down"@[0]);
    reveal_strlit("high");
    reveal_strlit("down");
    assert(set_param_names()[14].0[0] != "down"@[0]);
    reveal_strlit("size");
    reveal_strlit("down");
    assert(set_param_names()[30].0[0] != "down"@[0]);
    reveal_strlit("semi");
    reveal_strlit("down");
    assert(set_param_names()[34].0[0] != "down"@[0]);
    reveal_strlit("fdbk");
    reveal_strlit("down");
    assert(set_param_names()[45].0[0] != "down"@[0]);
    reveal_strlit("time");
    reveal_strlit("down");
    assert(set_param_names()[47].0[0] != "down"@[0]);
    reveal_strlit("bits");
    reveal_strlit("down");
    assert(set_param_names()[70].0[0] != "down"@[0]);
    assert(absent_before(set_param_names(), "down"@, 73));
    lemma_lookup_at(set_param_names(), "down"@, 73);
}

proof fn lemma_set_param_finds_mode()
    ensures
        lookup(set_param_names(), "mode"@) == Some(ParamId::BitcrushMode),
{
    lemma_set_param_entries();
    reveal_with_fuel(absent_before, 77);
    reveal_strlit("gain");
    reveal_strlit("mode");
    assert(set_param_names()[7].0[0] != "mode"@[0]);
    reveal_strlit("bass");
    reveal_strlit("mode");
    assert(set_param_names()[9].0[0] != "mode"@[0]);
    reveal_strlit("high");
    reveal_strlit("mode");
    assert(set_param_names()[14].0[0] != "mode"@[0]);
    reveal_strlit("size");
    reveal_strlit("mode");
    assert(set_param_names()[30].0[0] != "mode"@[0]);
    reveal_strlit("semi");
    reveal_strlit("mode");
    assert(set_param_names()[34].0[0] != "mode"@[0]);
    reveal_strlit("fdbk");
    reveal_strlit("mode");
    assert(set_param_names()[45].0[0] != "mode"@[0]);
    reveal_strlit("time");
    reveal_strlit("mode");
    assert(set_param_names()[47].0[0] != "mode"@[0]);
    reveal_strlit("bits");
    reveal_strlit("mode");
    assert(set_param_names()[70].0[0] != "mode"@[0]);
    reveal_strlit("down");
    reveal_strlit("mode");
    assert(set_param_names()[73].0[0] != "mode"@[0]);
    assert(absent_before(set_param_names(), "mode"@, 76));
    lemma_lookup_at(set_param_names(), "mode"@, 76);
}

proof fn lemma_set_param_finds_bitcrush_mode()
    ensures
        lookup(set_param_names(), "bitcrush_mode"@) == Some(ParamId::BitcrushMode),
{
    lemma_set_param_entries();
    reveal_with_fuel(absent_before, 76);
    reveal_strlit("amp_bass_freq");
    reveal_strlit("bitcrush_mode");
    assert(set_param_names()[18].0[0] != "bitcrush_mode"@[0]);
    reveal_strlit("amp_high_freq");
    reveal_strlit("bitcrush_mode");
    assert(set_param_names()[22].0[0] != "bitcrush_mode"@[0]);
    reveal_strlit("cab_normalize");
    reveal_strlit("bitcrush_mode");
    assert(set_param_names()[31].0[0] != "bitcrush_mode"@[0]);
    reveal_strlit("auto_tune_key");
    reveal_strlit("bitcrush_mode");
    assert(set_param_names()[37].0[0] != "bitcrush_mode"@[0]);
    reveal_strlit("delay_ducking");
    reveal_strlit("bitcrush_mode");
    assert(set_param_names()[48].0[0] != "bitcrush_mode"@[0]);
    reveal_strlit("bitcrush_bits");
    reveal_strlit("bitcrush_mode");
    assert(set_param_names()[69].0[9] != "bitcrush_mode"@[9]);
    assert(absent_before(set_param_names(), "bitcrush_mode"@, 75));
    lemma_lookup_at(set_param_names(), "bitcrush_mode"@, 75);
}

proof fn lemma_set_param_finds_drive()
    ensures
        lookup(set_param_names(), "drive"@) == Some(ParamId::OverdriveDrive),
{
    lemma_set_param_entries();
    reveal_with_fuel(absent_before, 79);
    reveal_strlit("input");
    reveal_strlit("drive");
    assert(set_param_names()[1].0[0] != "drive"@[0]);
    reveal_strlit("space");
    reveal_strlit("drive");
    assert(set_param_names()[56].0[0] != "drive"@[0]);
    assert(absent_before(set_param_names(), "drive"@, 78));
    lemma_lookup_at(set_param_names(), "drive"@, 78);
}

proof fn lemma_set_param_finds_tone()
    ensures
        lookup(set_param_names(), "tone"@) == Some(ParamId::OverdriveTone),
{
    lemma_set_param_entries();
    reveal_with_fuel(absent_before, 81);
    reveal_strlit("gain");
    reveal_strlit("tone");
    assert(set_param_names()[7].0[0] != "tone"@[0]);
    reveal_strlit("bass");
    reveal_strlit("tone");
    assert(set_param_names()[9].0[0] != "tone"@[0]);
    reveal_strlit("high");
    reveal_strlit("tone");
    assert(set_param_names()[14].0[0] != "tone"@[0]);
    reveal_strlit("size");
    reveal_strlit("tone");
    assert(set_param_names()[30].0[0] != "tone"@[0]);
    reveal_strlit("semi");
    reveal_strlit("tone");
    assert(set_param_names()[34].0[0] != "tone"@[0]);
    reveal_strlit("fdbk");
    reveal_strlit("tone");
    assert(set_param_names()[45].0[0] != "tone"@[0]);
    reveal_strlit("time");
    reveal_strlit("tone");
    assert(set_param_names()[47].0[1] != "tone"@[1]);
    reveal_strlit("bits");
    reveal_strlit("tone");
    assert(set_param_names()[70].0[0] != "tone"@[0]);
    reveal_strlit("down");
    reveal_strlit("tone");
    assert(set_param_names()[73].0[0] != "tone"@[0]);
    reveal_strlit("mode");
    reveal_strlit("tone");
    assert(set_param_names()[76].0[0] != "tone"@[0]);
    assert(absent_before(set_param_names(), "tone"@, 80));
    lemma_lookup_at(set_param_names(), "tone"@, 80);
}

proof fn lemma_set_param_finds_level()
    ensures
        lookup(set_param_names(), "level"@) == Some(ParamId::OverdriveLevel),
{
    lemma_set_param_entries();
    reveal_with_fuel(absent_before, 83);
    reveal_strlit("input");
    reveal_strlit("level");
    assert(set_param_names()[1].0[0] != "level"@[0]);
    reveal_strlit("space");
    reveal_strlit("level");
    assert(set_param_names()[56].0[0] != "level"@[0]);
    reveal_strlit("drive");
    reveal_strlit("level");
    assert(set_param_names()[78].0[0] != "level"@[0]);
    assert(absent_before(set_param_names(), "level"@, 82));
    lemma_lookup_at(set_param_names(), "level"@, 82);
}

proof fn lemma_set_param_finds_algo()
    ensures
        lookup(set_param_names(), "algo"@) == Some(ParamId::OverdriveAlgo),
{
    lemma_set_param_entries();
    reveal_with_fuel(absent_before, 85);
    reveal_strlit("gain");
    reveal_strlit("algo");
    assert(set_param_names()[7].0[0] != "algo"@[0]);
    reveal_strlit("bass");
    reveal_strlit("algo");
    assert(set_param_names()[9].0[0] != "algo"@[0]);
    reveal_strlit("high");
    reveal_strlit("algo");
    assert(set_param_names()[14].0[0] != "algo"@[0]);
    reveal_strlit("size");
    reveal_strlit("algo");
    assert(set_param_names()[30].0[0] != "algo"@[0]);
    reveal_strlit("semi");
    reveal_strlit("algo");
    assert(set_param_names()[34].0[0] != "algo"@[0]);
    reveal_strlit("fdbk");
    reveal_strlit("algo");
    assert(set_param_names()[45].0[0] != "algo"@[0]);
    reveal_strlit("time");
    reveal_strlit("algo");
    assert(set_param_names()[47].0[0] != "algo"@[0]);
    reveal_strlit("bits");
    reveal_strlit("algo");
    assert(set_param_names()[70].0[0] != "algo"@[0]);
    reveal_strlit("down");
    reveal_strlit("algo");
    assert(set_param_names()[73].0[0] != "algo"@[0]);
    reveal_strlit("mode");
    reveal_strlit("algo");
    assert(set_param_names()[76].0[0] != "algo"@[0]);
    reveal_strlit("tone");
    reveal_strlit("algo");
    assert(set_param_names()[80].0[0] != "algo"@[0]);
    assert(absent_before(set_param_names(), "algo"@, 84));
    lemma_lookup_at(set_param_names(), "algo"@, 84);
}

proof fn lemma_set_param_finds_overdrive_algo()
    ensures
        lookup(set_param_names(), "overdrive_algo"@) == Some(ParamId::OverdriveAlgo),
{
    lemma_set_param_entries();
    reveal_with_fuel(absent_before, 84);
    reveal_strlit("auto_tune_mode");
    reveal_strlit("overdrive_algo");
    assert(set_param_names()[39].0[0] != "overdrive_algo"@[0]);
    reveal_strlit("delay_feedback");
    reveal_strlit("overdrive_algo");
    assert(set_param_names()[43].0[0] != "overdrive_algo"@[0]);
    reveal_strlit("reverb_shimmer");
    reveal_strlit("overdrive_algo");
    assert(set_param_names()[57].0[0] != "overdrive_algo"@[0]);
    reveal_strlit("reverb_ducking");
    reveal_strlit("overdrive_algo");
    assert(set_param_names()[59].0[0] != "overdrive_algo"@[0]);
    reveal_strlit("gate_threshold");
    reveal_strlit("overdrive_algo");
    assert(set_param_names()[60].0[0] != "overdrive_algo"@[0]);
    reveal_strlit("overdrive_tone");
    reveal_strlit("overdrive_algo");
    assert(set_param_names()[79].0[10] != "overdrive_algo"@[10]);
    assert(absent_before(set_param_names(), "overdrive_algo"@, 83));
    lemma_lookup_at(set_param_names(), "overdrive_algo"@, 83);
}

proof fn lemma_set_param_finds_low_gain()
    ensures
        lookup(set_param_names(), "low_gain"@) == Some(ParamId::EqLowGain),
{
    lemma_set_param_entries();
    reveal_with_fuel(absent_before, 88);
    reveal_strlit("amp_gain");
    reveal_strlit("low_gain");
    assert(set_param_names()[5].0[0] != "low_gain"@[0]);
    reveal_strlit("nam_gain");
    reveal_strlit("low_gain");
    assert(set_param_names()[6].0[0] != "low_gain"@[0]);
    reveal_strlit("amp_bass");
    reveal_strlit("low_gain");
    assert(set_param_names()[8].0[0] != "low_gain"@[0]);
    reveal_strlit("amp_high");
    reveal_strlit("low_gain");
    assert(set_param_names()[13].0[0] != "low_gain"@[0]);
    reveal_strlit("mid_freq");
    reveal_strlit("low_gain");
    assert(set_param_names()[21].0[0] != "low_gain"@[0]);
    reveal_strlit("cab_gain");
    reveal_strlit("low_gain");
    assert(set_param_names()[24].0[0] != "low_gain"@[0]);
    reveal_strlit("position");
    reveal_strlit("low_gain");
    assert(set_param_names()[27].0[0] != "low_gain"@[0]);
    reveal_strlit("cab_size");
    reveal_strlit("low_gain");
    assert(set_param_names()[29].0[0] != "low_gain"@[0]);
    reveal_strlit("feedback");
    reveal_strlit("low_gain");
    assert(set_param_names()[44].0[0] != "low_gain"@[0]);
    reveal_strlit("verb_mix");
    reveal_strlit("low_gain");
    assert(set_param_names()[52].0[0] != "low_gain"@[0]);
    assert(absent_before(set_param_names(), "low_gain"@, 87));
    lemma_lookup_at(set_param_names(), "low_gain"@, 87);
}

proof fn lemma_set_param_finds_log()
    ensures
        lookup(set_param_names(), "log"@) == Some(ParamId::EqLowGain),
{
    lemma_set_param_entries();
    reveal_with_fuel(absent_before, 89);
    reveal_strlit("mix");
    reveal_strlit("log");
    assert(set_param_names()[4].0[0] != "log"@[0]);
    reveal_strlit("mid");
    reveal_strlit("log");
    assert(set_param_names()[12].0[0] != "log"@[0]);
    reveal_strlit("pos");
    reveal_strlit("log");
    assert(set_param_names()[28].0[0] != "log"@[0]);
    reveal_strlit("atk");
    reveal_strlit("log");
    assert(set_param_names()[65].0[0] != "log"@[0]);
    reveal_strlit("rel");
    reveal_strlit("log");
    assert(set_param_names()[68].0[0] != "log"@[0]);
    assert(absent_before(set_param_names(), "log"@, 88));
    lemma_lookup_at(set_param_names(), "log"@, 88);
}

proof fn lemma_set_param_finds_mid_gain()
    ensures
        lookup(set_param_names(), "mid_gain"@) == Some(ParamId::EqMidGain),
{
    lemma_set_param_entries();
    reveal_with_fuel(absent_before, 92);
    reveal_strlit("amp_gain");
    reveal_strlit("mid_gain");
    assert(set_param_names()[5].0[0] != "mid_gain"@[0]);
    reveal_strlit("nam_gain");
    reveal_strlit("mid_gain");
    assert(set_param_names()[6].0[0] != "mid_gain"@[0]);
    reveal_strlit("amp_bass");
    reveal_strlit("mid_gain");
    assert(set_param_names()[8].0[0] != "mid_gain"@[0]);
    reveal_strlit("amp_high");
    reveal_strlit("mid_gain");
    assert(set_param_names()[13].0[0] != "mid_gain"@[0]);
    reveal_strlit("mid_freq");
    reveal_strlit("mid_gain");
    assert(set_param_names()[21].0[4] != "mid_gain"@[4]);
    reveal_strlit("cab_gain");
    reveal_strlit("mid_gain");
    assert(set_param_names()[24].0[0] != "mid_gain"@[0]);
    reveal_strlit("position");
    reveal_strlit("mid_gain");
    assert(set_param_names()[27].0[0] != "mid_gain"@[0]);
    reveal_strlit("cab_size");
    reveal_strlit("mid_gain");
    assert(set_param_names()[29].0[0] != "mid_gain"@[0]);
    reveal_strlit("feedback");
    reveal_strlit("mid_gain");
    assert(set_param_names()[44].0[0] != "mid_gain"@[0]);
    reveal_strlit("verb_mix");
    reveal_strlit("mid_gain");
    assert(set_param_names()[52].0[0] != "mid_gain"@[0]);
    reveal_strlit("low_gain");
    reveal_strlit("mid_gain");
    assert(set_param_names()[87].0[0] != "mid_gain"@[0]);
    assert(absent_before(set_param_names(), "mid_gain"@, 91));
    lemma_lookup_at(set_param_names(), "mid_gain"@, 91);
}

proof fn lemma_set_param_finds_midg()
    ensures
        lookup(set_param_names(), "midg"@) == Some(ParamId::EqMidGain),
{
    lemma_set_param_entries();
    reveal_with_fuel(absent_before, 93);
    reveal_strlit("gain");
    reveal_strlit("midg");
    assert(set_param_names()[7].0[0] != "midg"@[0]);
    reveal_strlit("bass");
    reveal_strlit("midg");
    assert(set_param_names()[9].0[0] != "midg"@[0]);
    reveal_strlit("high");
    reveal_strlit("midg");
    assert(set_param_names()[14].0[0] != "midg"@[0]);
    reveal_strlit("size");
    reveal_strlit("midg");
    assert(set_param_names()[30].0[0] != "midg"@[0]);
    reveal_strlit("semi");
    reveal_strlit("midg");
    assert(set_param_names()[34].0[0] != "midg"@[0]);
    reveal_strlit("fdbk");
    reveal_strlit("midg");
    assert(set_param_names()[45].0[0] != "midg"@[0]);
    reveal_strlit("time");
    reveal_strlit("midg");
    assert(set_param_names()[47].0[0] != "midg"@[0]);
    reveal_strlit("bits");
    reveal_strlit("midg");
    assert(set_param_names()[70].0[0] != "midg"@[0]);
    reveal_strlit("down");
    reveal_strlit("midg");
    assert(set_param_names()[73].0[0] != "midg"@[0]);
    reveal_strlit("mode");
    reveal_strlit("midg");
    assert(set_param_names()[76].0[1] != "midg"@[1]);
    reveal_strlit("tone");
    reveal_strlit("midg");
    assert(set_param_names()[80].0[0] != "midg"@[0]);
    reveal_strlit("algo");
    reveal_strlit("midg");
    assert(set_param_names()[84].0[0] != "midg"@[0]);
    assert(absent_before(set_param_names(), "midg"@, 92));
    lemma_lookup_at(set_param_names(), "midg"@, 92);
}

proof fn lemma_set_param_finds_high_gain()
    ensures
        lookup(set_param_names(), "high_gain"@) == Some(ParamId::EqHighGain),
{
    lemma_set_param_entries();
    reveal_with_fuel(absent_before, 97);
    reveal_strlit("bass_freq");
    reveal_strlit("high_gain");
    assert(set_param_names()[19].0[0] != "high_gain"@[0]);
    reveal_strlit("high_freq");
    reveal_strlit("high_gain");
    assert(set_param_names()[23].0[5] != "high_gain"@[5]);
    reveal_strlit("pitch_mix");
    reveal_strlit("high_gain");
    assert(set_param_names()[35].0[0] != "high_gain"@[0]);
    reveal_strlit("delay_mix");
    reveal_strlit("high_gain");
    assert(set_param_names()[42].0[0] != "high_gain"@[0]);
    reveal_strlit("ping_pong");
    reveal_strlit("high_gain");
    assert(set_param_names()[50].0[0] != "high_gain"@[0]);
    reveal_strlit("threshold");
    reveal_strlit("high_gain");
    assert(set_param_names()[61].0[0] != "high_gain"@[0]);
    assert(absent_before(set_param_names(), "high_gain"@, 96));
    lemma_lookup_at(set_param_names(), "high_gain"@, 96);
}

proof fn lemma_set_param_finds_hig()
    ensures
        lookup(set_param_names(), "hig"@) == Some(ParamId::EqHighGain),
{
    lemma_set_param_entries();
    reveal_with_fuel(absent_before, 98);
    reveal_strlit("mix");
    reveal_strlit("hig");
    assert(set_param_names()[4].0[0] != "hig"@[0]);
    reveal_strlit("mid");
    reveal_strlit("hig");
    assert(set_param_names()[12].0[0] != "hig"@[0]);
    reveal_strlit("pos");
    reveal_strlit("hig");
    assert(set_param_names()[28].0[0] != "hig"@[0]);
    reveal_strlit("atk");
    reveal_strlit("hig");
    assert(set_param_names()[65].0[0] != "hig"@[0]);
    reveal_strlit("rel");
    reveal_strlit("hig");
    assert(set_param_names()[68].0[0] != "hig"@[0]);
    reveal_strlit("log");
    reveal_strlit("hig");
    assert(set_param_names()[88].0[0] != "hig"@[0]);
    assert(absent_before(set_param_names(), "hig"@, 97));
    lemma_lookup_at(set_param_names(), "hig"@, 97);
}

/// The editor's `set_param` names resolve every knob's id to the parameter
/// that knob turns: the message routing and the knobs agree.
pub proof fn law_set_param_agrees_with_knobs()
    ensures
        forall|i: int| 0 <= i < knob_params().len()
            ==> lookup(set_param_names(), #[trigger] knob_params()[i].0) == Some(knob_params()[i].1),
{
    lemma_knob_entries();
    assert forall|i: int| 0 <= i < knob_params().len()
        implies lookup(set_param_names(), #[trigger] knob_params()[i].0) == Some(knob_params()[i].1) by {
        if i == 0 {
            lemma_set_param_finds_amp_gain();
        } else if i == 1 {
            lemma_set_param_finds_amp_bass();
        } else if i == 2 {
            lemma_set_param_finds_amp_middle();
        } else if i == 3 {
            lemma_set_param_finds_amp_high();
        } else if i == 4 {
            lemma_set_param_finds_amp_output();
        } else if i == 5 {
            lemma_set_param_finds_cab_gain();
        } else if i == 6 {
            lemma_set_param_finds_cab_position();
        } else if i == 7 {
            lemma_set_param_finds_cab_size();
        } else if i == 8 {
            lemma_set_param_finds_pitch_gain();
        } else if i == 9 {
            lemma_set_param_finds_pitch_semi();
        } else if i == 10 {
            lemma_set_param_finds_pitch_mix();
        } else if i == 11 {
            lemma_set_param_finds_delay_time();
        } else if i == 12 {
            lemma_set_param_finds_delay_feedback();
        } else if i == 13 {
            lemma_set_param_finds_delay_mix();
        } else if i == 14 {
            lemma_set_param_finds_delay_ducking();
        } else if i == 15 {
            lemma_set_param_finds_reverb_space();
        } else if i == 16 {
            lemma_set_param_finds_reverb_mix();
        } else if i == 17 {
            lemma_set_param_finds_reverb_shimmer();
        } else if i == 18 {
            lemma_set_param_finds_reverb_ducking();
        } else if i == 19 {
            lemma_set_param_finds_gate_threshold();
        } else if i == 20 {
            lemma_set_param_finds_gate_attack();
        } else if i == 21 {
            lemma_set_param_finds_gate_release();
        } else if i == 22 {
            lemma_set_param_finds_bitcrush_bits();
        } else if i == 23 {
            lemma_set_param_finds_bitcrush_downsample();
        } else if i == 24 {
            lemma_set_param_finds_bitcrush_mix();
        } else if i == 25 {
            lemma_set_param_finds_overdrive_drive();
        } else if i == 26 {
            lemma_set_param_finds_overdrive_tone();
        } else if i == 27 {
            lemma_set_param_finds_overdrive_level();
        } else if i == 28 {
            lemma_set_param_finds_eq_low_gain();
        } else if i == 29 {
            lemma_set_param_finds_eq_mid_gain();
        } else {
            lemma_set_param_finds_eq_high_gain();
        }
    }
}

/// A short name the editor may send resolves to the same parameter as the
/// full name it stands for, and that full name resolves to a parameter.
pub proof fn law_set_param_aliases_agree()
    ensures
        forall|i: int| 0 <= i < set_param_aliases().len() ==> {
            &&& lookup(set_param_names(), #[trigger] set_param_aliases()[i].0)
                == lookup(set_param_names(), set_param_aliases()[i].1)
            &&& lookup(set_param_names(), set_param_aliases()[i].1) is Some
        },
{
    assert forall|i: int| 0 <= i < set_param_aliases().len() implies {
        &&& lookup(set_param_names(), #[trigger] set_param_aliases()[i].0)
            == lookup(set_param_names(), set_param_aliases()[i].1)
        &&& lookup(set_param_names(), set_param_aliases()[i].1) is Some
    } by {
        if i == 0 {
            lemma_set_param_finds_input();
            lemma_set_param_finds_input_gain();
        } else if i == 1 {
            lemma_set_param_finds_output();
            lemma_set_param_finds_output_gain();
        } else if i == 2 {
            lemma_set_param_finds_nam_gain();
            lemma_set_param_finds_amp_gain();
        } else if i == 3 {
            lemma_set_param_finds_gain();
            lemma_set_param_finds_amp_gain();
        } else if i == 4 {
            lemma_set_param_finds_bass();
            lemma_set_param_finds_amp_bass();
        } else if i == 5 {
            lemma_set_param_finds_middle();
            lemma_set_param_finds_amp_middle();
        } else if i == 6 {
            lemma_set_param_finds_mid();
            lemma_set_param_finds_amp_middle();
        } else if i == 7 {
            lemma_set_param_finds_high();
            lemma_set_param_finds_amp_high();
        } else if i == 8 {
            lemma_set_param_finds_treble();
            lemma_set_param_finds_amp_high();
        } else if i == 9 {
            lemma_set_param_finds_amp_out();
            lemma_set_param_finds_amp_output();
        } else if i == 10 {
            lemma_set_param_finds_bass_freq();
            lemma_set_param_finds_amp_bass_freq();
        } else if i == 11 {
            lemma_set_param_finds_mid_freq();
            lemma_set_param_finds_amp_mid_freq();
        } else if i == 12 {
            lemma_set_param_finds_high_freq();
            lemma_set_param_finds_amp_high_freq();
        } else if i == 13 {
            lemma_set_param_finds_cab_pos();
            lemma_set_param_finds_cab_position();
        } else if i == 14 {
            lemma_set_param_finds_position();
            lemma_set_param_finds_cab_position();
        } else if i == 15 {
            lemma_set_param_finds_pos();
            lemma_set_param_finds_cab_position();
        } else if i == 16 {
            lemma_set_param_finds_size();
            lemma_set_param_finds_cab_size();
        } else if i == 17 {
            lemma_set_param_finds_semi();
            lemma_set_param_finds_pitch_semi();
        } else if i == 18 {
            lemma_set_param_finds_feedback();
            lemma_set_param_finds_delay_feedback();
        } else if i == 19 {
            lemma_set_param_finds_fdbk();
            lemma_set_param_finds_delay_feedback();
        } else if i == 20 {
            lemma_set_param_finds_time();
            lemma_set_param_finds_delay_time();
        } else if i == 21 {
            lemma_set_param_finds_ping_pong();
            lemma_set_param_finds_delay_ping_pong();
        } else if i == 22 {
            lemma_set_param_finds_verb_mix();
            lemma_set_param_finds_reverb_mix();
        } else if i == 23 {
            lemma_set_param_finds_shimmer_mix();
            lemma_set_param_finds_reverb_mix();
        } else if i == 24 {
            lemma_set_param_finds_verb_space();
            lemma_set_param_finds_reverb_space();
        } else if i == 25 {
            lemma_set_param_finds_space();
            lemma_set_param_finds_reverb_space();
        } else if i == 26 {
            lemma_set_param_finds_shimmer();
            lemma_set_param_finds_reverb_shimmer();
        } else if i == 27 {
            lemma_set_param_finds_threshold();
            lemma_set_param_finds_gate_threshold();
        } else if i == 28 {
            lemma_set_param_finds_thresh();
            lemma_set_param_finds_gate_threshold();
        } else if i == 29 {
            lemma_set_param_finds_attack();
            lemma_set_param_finds_gate_attack();
        } else if i == 30 {
            lemma_set_param_finds_atk();
            lemma_set_param_finds_gate_attack();
        } else if i == 31 {
            lemma_set_param_finds_release();
            lemma_set_param_finds_gate_release();
        } else if i == 32 {
            lemma_set_param_finds_rel();
            lemma_set_param_finds_gate_release();
        } else if i == 33 {
            lemma_set_param_finds_bits();
            lemma_set_param_finds_bitcrush_bits();
        } else if i == 34 {
            lemma_set_param_finds_downsample();
            lemma_set_param_finds_bitcrush_downsample();
        } else if i == 35 {
            lemma_set_param_finds_down();
            lemma_set_param_finds_bitcrush_downsample();
        } else if i == 36 {
            lemma_set_param_finds_mode();
            lemma_set_param_finds_bitcrush_mode();
        } else if i == 37 {
            lemma_set_param_finds_drive();
            lemma_set_param_finds_overdrive_drive();
        } else if i == 38 {
            lemma_set_param_finds_tone();
            lemma_set_param_finds_overdrive_tone();
        } else if i == 39 {
            lemma_set_param_finds_level();
            lemma_set_param_finds_overdrive_level();
        } else if i == 40 {
            lemma_set_param_finds_algo();
            lemma_set_param_finds_overdrive_algo();
        } else if i == 41 {
            lemma_set_param_finds_low_gain();
            lemma_set_param_finds_eq_low_gain();
        } else if i == 42 {
            lemma_set_param_finds_log();
            lemma_set_param_finds_eq_low_gain();
        } else if i == 43 {
            lemma_set_param_finds_mid_gain();
            lemma_set_param_finds_eq_mid_gain();
        } else if i == 44 {
            lemma_set_param_finds_midg();
            lemma_set_param_finds_eq_mid_gain();
        } else if i == 45 {
            lemma_set_param_finds_high_gain();
            lemma_set_param_finds_eq_high_gain();
        } else {
            lemma_set_param_finds_hig();
            lemma_set_param_finds_eq_high_gain();
        }
    }
}

} // verus!
