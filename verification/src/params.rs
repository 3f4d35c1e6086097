//! Parameter routing: which plugin parameter an editor message or a knob
//! refers to.  Each routing is a table of names, searched in order.

use vstd::prelude::*;
use crate::text::text_eq;

verus! {

/// The plugin's parameters, as the editor addresses them.
#[derive(Debug, Clone, Copy, PartialEq, Eq, Structural)]
pub enum ParamId {
    InputGain,
    OutputGain,
    Mix,
    NamGain,
    AmpBass,
    AmpMiddle,
    AmpHigh,
    AmpOutput,
    AmpBassFreq,
    AmpMidFreq,
    AmpHighFreq,
    CabGain,
    CabPosition,
    CabSize,
    CabNormalize,
    PitchGain,
    PitchSemi,
    PitchMix,
    AutoTuneToggle,
    AutoTuneKey,
    AutoTuneScale,
    AutoTuneMode,
    AutoTuneSpeed,
    AutoTuneAmount,
    DelayMix,
    DelayFeedback,
    DelayTime,
    DelayDucking,
    DelayPingPong,
    ReverbMix,
    ReverbSpace,
    ReverbShimmer,
    ReverbDucking,
    GateThreshold,
    GateAttack,
    GateRelease,
    BitcrushBits,
    BitcrushDownsample,
    BitcrushMix,
    BitcrushMode,
    OverdriveDrive,
    OverdriveTone,
    OverdriveLevel,
    OverdriveAlgo,
    EqLowFreq,
    EqLowGain,
    EqMidFreq,
    EqMidGain,
    EqMidQ,
    EqHighFreq,
    EqHighGain,
    AmpNormalize,
    Snapshot,
    Macro1,
    Macro2,
    Macro3,
    Macro4,
    NamBypass,
    CabBypass,
    PitchBypass,
    DelayBypass,
    ReverbBypass,
    GateBypass,
}

/// The value paired with the first entry named `key`, if any.
pub open spec fn lookup<V>(table: Seq<(Seq<char>, V)>, key: Seq<char>) -> Option<V>
    decreases table.len(),
{
    if table.len() == 0 {
        None
    } else if table[0].0 == key {
        Some(table[0].1)
    } else {
        lookup(table.drop_first(), key)
    }
}

/// A table of names with their views in place of the names.
pub open spec fn table_view<V>(t: Seq<(&'static str, V)>) -> Seq<(Seq<char>, V)> {
    t.map_values(|e: (&'static str, V)| (e.0@, e.1))
}

/// Searches `table` for the first entry named `key`.
pub fn lookup_name<V: Copy>(table: &Vec<(&'static str, V)>, key: &str) -> (r: Option<V>)
    ensures
        r == lookup(table_view(table@), key@),
{
    let n: usize = table.len();
    let mut i: usize = 0;
    assert(table_view(table@).skip(0) =~= table_view(table@));
    while i < n
        invariant
            n == table@.len(),
            i <= n,
            lookup(table_view(table@), key@) == lookup(table_view(table@).skip(i as int), key@),
        decreases n - i,
    {
        let entry: (&'static str, V) = table[i];
        proof {
            let rest = table_view(table@).skip(i as int);
            assert(rest.len() > 0);
            assert(rest[0] == (entry.0@, entry.1));
            assert(rest.drop_first() =~= table_view(table@).skip(i + 1));
        }
        if text_eq(entry.0, key) {
            return Some(entry.1);
        }
        i = i + 1;
    }
    proof {
        assert(table_view(table@).skip(n as int).len() == 0);
    }
    None
}

/// Names the editor uses for a parameter it sets to a value.
pub open spec fn set_param_names() -> Seq<(Seq<char>, ParamId)> {
    seq![
        ("input_gain"@, ParamId::InputGain),
        ("input"@, ParamId::InputGain),
        ("output_gain"@, ParamId::OutputGain),
        ("output"@, ParamId::OutputGain),
        ("mix"@, ParamId::Mix),
        ("amp_gain"@, ParamId::NamGain),
        ("nam_gain"@, ParamId::NamGain),
        ("gain"@, ParamId::NamGain),
        ("amp_bass"@, ParamId::AmpBass),
        ("bass"@, ParamId::AmpBass),
        ("amp_middle"@, ParamId::AmpMiddle),
        ("middle"@, ParamId::AmpMiddle),
        ("mid"@, ParamId::AmpMiddle),
        ("amp_high"@, ParamId::AmpHigh),
        ("high"@, ParamId::AmpHigh),
        ("treble"@, ParamId::AmpHigh),
        ("amp_output"@, ParamId::AmpOutput),
        ("amp_out"@, ParamId::AmpOutput),
        ("amp_bass_freq"@, ParamId::AmpBassFreq),
        ("bass_freq"@, ParamId::AmpBassFreq),
        ("amp_mid_freq"@, ParamId::AmpMidFreq),
        ("mid_freq"@, ParamId::AmpMidFreq),
        ("amp_high_freq"@, ParamId::AmpHighFreq),
        ("high_freq"@, ParamId::AmpHighFreq),
        ("cab_gain"@, ParamId::CabGain),
        ("cab_position"@, ParamId::CabPosition),
        ("cab_pos"@, ParamId::CabPosition),
        ("position"@, ParamId::CabPosition),
        ("pos"@, ParamId::CabPosition),
        ("cab_size"@, ParamId::CabSize),
        ("size"@, ParamId::CabSize),
        ("cab_normalize"@, ParamId::CabNormalize),
        ("pitch_gain"@, ParamId::PitchGain),
        ("pitch_semi"@, ParamId::PitchSemi),
        ("semi"@, ParamId::PitchSemi),
        ("pitch_mix"@, ParamId::PitchMix),
        ("auto_tune_toggle"@, ParamId::AutoTuneToggle),
        ("auto_tune_key"@, ParamId::AutoTuneKey),
        ("auto_tune_scale"@, ParamId::AutoTuneScale),
        ("auto_tune_mode"@, ParamId::AutoTuneMode),
        ("auto_tune_speed"@, ParamId::AutoTuneSpeed),
        ("auto_tune_amount"@, ParamId::AutoTuneAmount),
        ("delay_mix"@, ParamId::DelayMix),
        ("delay_feedback"@, ParamId::DelayFeedback),
        ("feedback"@, ParamId::DelayFeedback),
        ("fdbk"@, ParamId::DelayFeedback),
        ("delay_time"@, ParamId::DelayTime),
        ("time"@, ParamId::DelayTime),
        ("delay_ducking"@, ParamId::DelayDucking),
        ("delay_ping_pong"@, ParamId::DelayPingPong),
        ("ping_pong"@, ParamId::DelayPingPong),
        ("reverb_mix"@, ParamId::ReverbMix),
        ("verb_mix"@, ParamId::ReverbMix),
        ("shimmer_mix"@, ParamId::ReverbMix),
        ("reverb_space"@, ParamId::ReverbSpace),
        ("verb_space"@, ParamId::ReverbSpace),
        ("space"@, ParamId::ReverbSpace),
        ("reverb_shimmer"@, ParamId::ReverbShimmer),
        ("shimmer"@, ParamId::ReverbShimmer),
        ("reverb_ducking"@, ParamId::ReverbDucking),
        ("gate_threshold"@, ParamId::GateThreshold),
        ("threshold"@, ParamId::GateThreshold),
        ("thresh"@, ParamId::GateThreshold),
        ("gate_attack"@, ParamId::GateAttack),
        ("attack"@, ParamId::GateAttack),
        ("atk"@, ParamId::GateAttack),
        ("gate_release"@, ParamId::GateRelease),
        ("release"@, ParamId::GateRelease),
        ("rel"@, ParamId::GateRelease),
        ("bitcrush_bits"@, ParamId::BitcrushBits),
        ("bits"@, ParamId::BitcrushBits),
        ("bitcrush_downsample"@, ParamId::BitcrushDownsample),
        ("downsample"@, ParamId::BitcrushDownsample),
        ("down"@, ParamId::BitcrushDownsample),
        ("bitcrush_mix"@, ParamId::BitcrushMix),
        ("bitcrush_mode"@, ParamId::BitcrushMode),
        ("mode"@, ParamId::BitcrushMode),
        ("overdrive_drive"@, ParamId::OverdriveDrive),
        ("drive"@, ParamId::OverdriveDrive),
        ("overdrive_tone"@, ParamId::OverdriveTone),
        ("tone"@, ParamId::OverdriveTone),
        ("overdrive_level"@, ParamId::OverdriveLevel),
        ("level"@, ParamId::OverdriveLevel),
        ("overdrive_algo"@, ParamId::OverdriveAlgo),
        ("algo"@, ParamId::OverdriveAlgo),
        ("eq_low_freq"@, ParamId::EqLowFreq),
        ("eq_low_gain"@, ParamId::EqLowGain),
        ("low_gain"@, ParamId::EqLowGain),
        ("log"@, ParamId::EqLowGain),
        ("eq_mid_freq"@, ParamId::EqMidFreq),
        ("eq_mid_gain"@, ParamId::EqMidGain),
        ("mid_gain"@, ParamId::EqMidGain),
        ("midg"@, ParamId::EqMidGain),
        ("eq_mid_q"@, ParamId::EqMidQ),
        ("eq_high_freq"@, ParamId::EqHighFreq),
        ("eq_high_gain"@, ParamId::EqHighGain),
        ("high_gain"@, ParamId::EqHighGain),
        ("hig"@, ParamId::EqHighGain),
        ("amp_normalize"@, ParamId::AmpNormalize),
        ("snapshot"@, ParamId::Snapshot),
        ("macro_1"@, ParamId::Macro1),
        ("macro_2"@, ParamId::Macro2),
        ("macro_3"@, ParamId::Macro3),
        ("macro_4"@, ParamId::Macro4)
    ]
}

/// Names the editor uses for a parameter it switches on or off.
pub open spec fn set_bypass_names() -> Seq<(Seq<char>, ParamId)> {
    seq![
        ("amp_bypass"@, ParamId::NamBypass),
        ("nam_bypass"@, ParamId::NamBypass),
        ("cab_bypass"@, ParamId::CabBypass),
        ("pitch_bypass"@, ParamId::PitchBypass),
        ("delay_bypass"@, ParamId::DelayBypass),
        ("reverb_bypass"@, ParamId::ReverbBypass),
        ("shimmer_bypass"@, ParamId::ReverbBypass),
        ("verb_bypass"@, ParamId::ReverbBypass),
        ("gate_bypass"@, ParamId::GateBypass),
        ("amp_normalize"@, ParamId::AmpNormalize),
        ("cab_normalize"@, ParamId::CabNormalize)
    ]
}

fn set_param_table() -> (r: Vec<(&'static str, ParamId)>)
    ensures
        table_view(r@) == set_param_names(),
{
    let r: Vec<(&'static str, ParamId)> = vec![
        ("input_gain", ParamId::InputGain),
        ("input", ParamId::InputGain),
        ("output_gain", ParamId::OutputGain),
        ("output", ParamId::OutputGain),
        ("mix", ParamId::Mix),
        ("amp_gain", ParamId::NamGain),
        ("nam_gain", ParamId::NamGain),
        ("gain", ParamId::NamGain),
        ("amp_bass", ParamId::AmpBass),
        ("bass", ParamId::AmpBass),
        ("amp_middle", ParamId::AmpMiddle),
        ("middle", ParamId::AmpMiddle),
        ("mid", ParamId::AmpMiddle),
        ("amp_high", ParamId::AmpHigh),
        ("high", ParamId::AmpHigh),
        ("treble", ParamId::AmpHigh),
        ("amp_output", ParamId::AmpOutput),
        ("amp_out", ParamId::AmpOutput),
        ("amp_bass_freq", ParamId::AmpBassFreq),
        ("bass_freq", ParamId::AmpBassFreq),
        ("amp_mid_freq", ParamId::AmpMidFreq),
        ("mid_freq", ParamId::AmpMidFreq),
        ("amp_high_freq", ParamId::AmpHighFreq),
        ("high_freq", ParamId::AmpHighFreq),
        ("cab_gain", ParamId::CabGain),
        ("cab_position", ParamId::CabPosition),
        ("cab_pos", ParamId::CabPosition),
        ("position", ParamId::CabPosition),
        ("pos", ParamId::CabPosition),
        ("cab_size", ParamId::CabSize),
        ("size", ParamId::CabSize),
        ("cab_normalize", ParamId::CabNormalize),
        ("pitch_gain", ParamId::PitchGain),
        ("pitch_semi", ParamId::PitchSemi),
        ("semi", ParamId::PitchSemi),
        ("pitch_mix", ParamId::PitchMix),
        ("auto_tune_toggle", ParamId::AutoTuneToggle),
        ("auto_tune_key", ParamId::AutoTuneKey),
        ("auto_tune_scale", ParamId::AutoTuneScale),
        ("auto_tune_mode", ParamId::AutoTuneMode),
        ("auto_tune_speed", ParamId::AutoTuneSpeed),
        ("auto_tune_amount", ParamId::AutoTuneAmount),
        ("delay_mix", ParamId::DelayMix),
        ("delay_feedback", ParamId::DelayFeedback),
        ("feedback", ParamId::DelayFeedback),
        ("fdbk", ParamId::DelayFeedback),
        ("delay_time", ParamId::DelayTime),
        ("time", ParamId::DelayTime),
        ("delay_ducking", ParamId::DelayDucking),
        ("delay_ping_pong", ParamId::DelayPingPong),
        ("ping_pong", ParamId::DelayPingPong),
        ("reverb_mix", ParamId::ReverbMix),
        ("verb_mix", ParamId::ReverbMix),
        ("shimmer_mix", ParamId::ReverbMix),
        ("reverb_space", ParamId::ReverbSpace),
        ("verb_space", ParamId::ReverbSpace),
        ("space", ParamId::ReverbSpace),
        ("reverb_shimmer", ParamId::ReverbShimmer),
        ("shimmer", ParamId::ReverbShimmer),
        ("reverb_ducking", ParamId::ReverbDucking),
        ("gate_threshold", ParamId::GateThreshold),
        ("threshold", ParamId::GateThreshold),
        ("thresh", ParamId::GateThreshold),
        ("gate_attack", ParamId::GateAttack),
        ("attack", ParamId::GateAttack),
        ("atk", ParamId::GateAttack),
        ("gate_release", ParamId::GateRelease),
        ("release", ParamId::GateRelease),
        ("rel", ParamId::GateRelease),
        ("bitcrush_bits", ParamId::BitcrushBits),
        ("bits", ParamId::BitcrushBits),
        ("bitcrush_downsample", ParamId::BitcrushDownsample),
        ("downsample", ParamId::BitcrushDownsample),
        ("down", ParamId::BitcrushDownsample),
        ("bitcrush_mix", ParamId::BitcrushMix),
        ("bitcrush_mode", ParamId::BitcrushMode),
        ("mode", ParamId::BitcrushMode),
        ("overdrive_drive", ParamId::OverdriveDrive),
        ("drive", ParamId::OverdriveDrive),
        ("overdrive_tone", ParamId::OverdriveTone),
        ("tone", ParamId::OverdriveTone),
        ("overdrive_level", ParamId::OverdriveLevel),
        ("level", ParamId::OverdriveLevel),
        ("overdrive_algo", ParamId::OverdriveAlgo),
        ("algo", ParamId::OverdriveAlgo),
        ("eq_low_freq", ParamId::EqLowFreq),
        ("eq_low_gain", ParamId::EqLowGain),
        ("low_gain", ParamId::EqLowGain),
        ("log", ParamId::EqLowGain),
        ("eq_mid_freq", ParamId::EqMidFreq),
        ("eq_mid_gain", ParamId::EqMidGain),
        ("mid_gain", ParamId::EqMidGain),
        ("midg", ParamId::EqMidGain),
        ("eq_mid_q", ParamId::EqMidQ),
        ("eq_high_freq", ParamId::EqHighFreq),
        ("eq_high_gain", ParamId::EqHighGain),
        ("high_gain", ParamId::EqHighGain),
        ("hig", ParamId::EqHighGain),
        ("amp_normalize", ParamId::AmpNormalize),
        ("snapshot", ParamId::Snapshot),
        ("macro_1", ParamId::Macro1),
        ("macro_2", ParamId::Macro2),
        ("macro_3", ParamId::Macro3),
        ("macro_4", ParamId::Macro4)
    ];
    assert(table_view(r@) =~= set_param_names());
    r
}

fn set_bypass_table() -> (r: Vec<(&'static str, ParamId)>)
    ensures
        table_view(r@) == set_bypass_names(),
{
    let r: Vec<(&'static str, ParamId)> = vec![
        ("amp_bypass", ParamId::NamBypass),
        ("nam_bypass", ParamId::NamBypass),
        ("cab_bypass", ParamId::CabBypass),
        ("pitch_bypass", ParamId::PitchBypass),
        ("delay_bypass", ParamId::DelayBypass),
        ("reverb_bypass", ParamId::ReverbBypass),
        ("shimmer_bypass", ParamId::ReverbBypass),
        ("verb_bypass", ParamId::ReverbBypass),
        ("gate_bypass", ParamId::GateBypass),
        ("amp_normalize", ParamId::AmpNormalize),
        ("cab_normalize", ParamId::CabNormalize)
    ];
    assert(table_view(r@) =~= set_bypass_names());
    r
}

/// The parameter that a `set_param` message names, if any.
pub fn resolve_set_param(param_id: &str) -> (r: Option<ParamId>)
    ensures
        r == lookup(set_param_names(), param_id@),
{
    let table: Vec<(&'static str, ParamId)> = set_param_table();
    lookup_name(&table, param_id)
}

/// The parameter that a `set_bypass` message names, if any.
pub fn resolve_set_bypass(param_id: &str) -> (r: Option<ParamId>)
    ensures
        r == lookup(set_bypass_names(), param_id@),
{
    let table: Vec<(&'static str, ParamId)> = set_bypass_table();
    lookup_name(&table, param_id)
}

/// The parameter each knob of a slot panel turns.
pub open spec fn knob_params() -> Seq<(Seq<char>, ParamId)> {
    seq![
        ("amp_gain"@, ParamId::NamGain),
        ("amp_bass"@, ParamId::AmpBass),
        ("amp_middle"@, ParamId::AmpMiddle),
        ("amp_high"@, ParamId::AmpHigh),
        ("amp_output"@, ParamId::AmpOutput),
        ("cab_gain"@, ParamId::CabGain),
        ("cab_position"@, ParamId::CabPosition),
        ("cab_size"@, ParamId::CabSize),
        ("pitch_gain"@, ParamId::PitchGain),
        ("pitch_semi"@, ParamId::PitchSemi),
        ("pitch_mix"@, ParamId::PitchMix),
        ("delay_time"@, ParamId::DelayTime),
        ("delay_feedback"@, ParamId::DelayFeedback),
        ("delay_mix"@, ParamId::DelayMix),
        ("delay_ducking"@, ParamId::DelayDucking),
        ("reverb_space"@, ParamId::ReverbSpace),
        ("reverb_mix"@, ParamId::ReverbMix),
        ("reverb_shimmer"@, ParamId::ReverbShimmer),
        ("reverb_ducking"@, ParamId::ReverbDucking),
        ("gate_threshold"@, ParamId::GateThreshold),
        ("gate_attack"@, ParamId::GateAttack),
        ("gate_release"@, ParamId::GateRelease),
        ("bitcrush_bits"@, ParamId::BitcrushBits),
        ("bitcrush_downsample"@, ParamId::BitcrushDownsample),
        ("bitcrush_mix"@, ParamId::BitcrushMix),
        ("overdrive_drive"@, ParamId::OverdriveDrive),
        ("overdrive_tone"@, ParamId::OverdriveTone),
        ("overdrive_level"@, ParamId::OverdriveLevel),
        ("eq_low_gain"@, ParamId::EqLowGain),
        ("eq_mid_gain"@, ParamId::EqMidGain),
        ("eq_high_gain"@, ParamId::EqHighGain)
    ]
}

/// The short label under each knob of a slot panel.
pub open spec fn knob_labels() -> Seq<(Seq<char>, &'static str)> {
    seq![
        ("amp_gain"@, "Gain"),
        ("amp_bass"@, "Bass"),
        ("amp_middle"@, "Mid"),
        ("amp_high"@, "High"),
        ("amp_output"@, "Out"),
        ("cab_gain"@, "Gain"),
        ("cab_position"@, "Pos"),
        ("cab_size"@, "Size"),
        ("pitch_gain"@, "Gain"),
        ("pitch_semi"@, "Semi"),
        ("pitch_mix"@, "Mix"),
        ("delay_time"@, "Time"),
        ("delay_feedback"@, "Fdbk"),
        ("delay_mix"@, "Mix"),
        ("delay_ducking"@, "Duck"),
        ("reverb_space"@, "Space"),
        ("reverb_mix"@, "Mix"),
        ("reverb_shimmer"@, "Shim"),
        ("reverb_ducking"@, "Duck"),
        ("gate_threshold"@, "Thresh"),
        ("gate_attack"@, "Atk"),
        ("gate_release"@, "Rel"),
        ("bitcrush_bits"@, "Bits"),
        ("bitcrush_downsample"@, "Down"),
        ("bitcrush_mix"@, "Mix"),
        ("overdrive_drive"@, "Drive"),
        ("overdrive_tone"@, "Tone"),
        ("overdrive_level"@, "Level"),
        ("eq_low_gain"@, "LoG"),
        ("eq_mid_gain"@, "MidG"),
        ("eq_high_gain"@, "HiG")
    ]
}

/// The parameter a slot panel's knob turns, if the knob id is known.
pub fn knob_param(knob_id: &str) -> (r: Option<ParamId>)
    ensures
        r == lookup(knob_params(), knob_id@),
{
    let table: Vec<(&'static str, ParamId)> = vec![
        ("amp_gain", ParamId::NamGain),
        ("amp_bass", ParamId::AmpBass),
        ("amp_middle", ParamId::AmpMiddle),
        ("amp_high", ParamId::AmpHigh),
        ("amp_output", ParamId::AmpOutput),
        ("cab_gain", ParamId::CabGain),
        ("cab_position", ParamId::CabPosition),
        ("cab_size", ParamId::CabSize),
        ("pitch_gain", ParamId::PitchGain),
        ("pitch_semi", ParamId::PitchSemi),
        ("pitch_mix", ParamId::PitchMix),
        ("delay_time", ParamId::DelayTime),
        ("delay_feedback", ParamId::DelayFeedback),
        ("delay_mix", ParamId::DelayMix),
        ("delay_ducking", ParamId::DelayDucking),
        ("reverb_space", ParamId::ReverbSpace),
        ("reverb_mix", ParamId::ReverbMix),
        ("reverb_shimmer", ParamId::ReverbShimmer),
        ("reverb_ducking", ParamId::ReverbDucking),
        ("gate_threshold", ParamId::GateThreshold),
        ("gate_attack", ParamId::GateAttack),
        ("gate_release", ParamId::GateRelease),
        ("bitcrush_bits", ParamId::BitcrushBits),
        ("bitcrush_downsample", ParamId::BitcrushDownsample),
        ("bitcrush_mix", ParamId::BitcrushMix),
        ("overdrive_drive", ParamId::OverdriveDrive),
        ("overdrive_tone", ParamId::OverdriveTone),
        ("overdrive_level", ParamId::OverdriveLevel),
        ("eq_low_gain", ParamId::EqLowGain),
        ("eq_mid_gain", ParamId::EqMidGain),
        ("eq_high_gain", ParamId::EqHighGain)
    ];
    assert(table_view(table@) =~= knob_params());
    lookup_name(&table, knob_id)
}

/// The label under a slot panel's knob: `???` for an unknown knob id.
pub fn knob_label(knob_id: &str) -> (r: &'static str)
    ensures
        match lookup(knob_labels(), knob_id@) {
            Some(l) => r == l,
            None => r@ == "???"@,
        },
{
    let table: Vec<(&'static str, &'static str)> = vec![
        ("amp_gain", "Gain"),
        ("amp_bass", "Bass"),
        ("amp_middle", "Mid"),
        ("amp_high", "High"),
        ("amp_output", "Out"),
        ("cab_gain", "Gain"),
        ("cab_position", "Pos"),
        ("cab_size", "Size"),
        ("pitch_gain", "Gain"),
        ("pitch_semi", "Semi"),
        ("pitch_mix", "Mix"),
        ("delay_time", "Time"),
        ("delay_feedback", "Fdbk"),
        ("delay_mix", "Mix"),
        ("delay_ducking", "Duck"),
        ("reverb_space", "Space"),
        ("reverb_mix", "Mix"),
        ("reverb_shimmer", "Shim"),
        ("reverb_ducking", "Duck"),
        ("gate_threshold", "Thresh"),
        ("gate_attack", "Atk"),
        ("gate_release", "Rel"),
        ("bitcrush_bits", "Bits"),
        ("bitcrush_downsample", "Down"),
        ("bitcrush_mix", "Mix"),
        ("overdrive_drive", "Drive"),
        ("overdrive_tone", "Tone"),
        ("overdrive_level", "Level"),
        ("eq_low_gain", "LoG"),
        ("eq_mid_gain", "MidG"),
        ("eq_high_gain", "HiG")
    ];
    assert(table_view(table@) =~= knob_labels());
    match lookup_name(&table, knob_id) {
        Some(l) => l,
        None => "???",
    }
}

/// The bypass switch a slot panel shows, by slot type: pitch, amp, cab,
/// delay and reverb slots have one.
pub open spec fn slot_bypass_names() -> Seq<(Seq<char>, ParamId)> {
    seq![
        ("pitch"@, ParamId::PitchBypass),
        ("amp"@, ParamId::NamBypass),
        ("cab"@, ParamId::CabBypass),
        ("delay"@, ParamId::DelayBypass),
        ("verb"@, ParamId::ReverbBypass),
        ("shimmer"@, ParamId::ReverbBypass)
    ]
}

/// The bypass switch for a slot of this type, if it has one.
pub fn slot_bypass_param(slot_type: &str) -> (r: Option<ParamId>)
    ensures
        r == lookup(slot_bypass_names(), slot_type@),
{
    let table: Vec<(&'static str, ParamId)> = vec![
        ("pitch", ParamId::PitchBypass),
        ("amp", ParamId::NamBypass),
        ("cab", ParamId::CabBypass),
        ("delay", ParamId::DelayBypass),
        ("verb", ParamId::ReverbBypass),
        ("shimmer", ParamId::ReverbBypass),
    ];
    assert(table_view(table@) =~= slot_bypass_names());
    lookup_name(&table, slot_type)
}

} // verus!
