//! What a slot panel of the editor shows for each slot type: its title,
//! the knobs it carries and its colours.

use vstd::prelude::*;
use crate::dsp::{EffectKind, effect_kind_for, kind_of_slot_type};

verus! {

/// Title, knob ids and colours (RGB) of a slot panel.
pub struct SlotMeta {
    pub title: &'static str,
    pub knobs: Vec<&'static str>,
    pub color: (u8, u8, u8),
    pub accent: (u8, u8, u8),
}

/// Title, knob ids, panel colour and accent colour for a slot of the given
/// kind; a slot of unknown type gets a plain panel without knobs.
pub open spec fn panel_for(kind: Option<EffectKind>) -> (Seq<char>, Seq<Seq<char>>, (u8, u8, u8), (u8, u8, u8)) {
    match kind {
            Some(EffectKind::Nam) => ("Amp"@, seq!["amp_gain"@, "amp_bass"@, "amp_middle"@, "amp_high"@, "amp_output"@], (34, 23, 53), (224, 122, 95)),
            Some(EffectKind::Cab) => ("Cab"@, seq!["cab_gain"@, "cab_position"@, "cab_size"@], (34, 28, 38), (224, 122, 95)),
            Some(EffectKind::Pitch) => ("Pitch Shifter"@, seq!["pitch_gain"@, "pitch_semi"@, "pitch_mix"@], (15, 32, 46), (0, 210, 255)),
            Some(EffectKind::Delay) => ("Delay"@, seq!["delay_time"@, "delay_feedback"@, "delay_ducking"@, "delay_mix"@], (8, 20, 31), (0, 210, 255)),
            Some(EffectKind::Reverb) => ("Reverb"@, seq!["reverb_space"@, "reverb_ducking"@, "reverb_mix"@], (29, 26, 53), (162, 125, 223)),
            Some(EffectKind::Gate) => ("Gate"@, seq!["gate_threshold"@, "gate_attack"@, "gate_release"@], (17, 34, 26), (74, 222, 128)),
            Some(EffectKind::Bitcrusher) => ("Bitcrusher"@, seq!["bitcrush_bits"@, "bitcrush_downsample"@, "bitcrush_mix"@], (30, 15, 15), (255, 69, 69)),
            Some(EffectKind::Overdrive) => ("Overdrive"@, seq!["overdrive_drive"@, "overdrive_tone"@, "overdrive_level"@], (30, 24, 10), (255, 170, 0)),
            Some(EffectKind::Eq) => ("EQ"@, seq!["eq_low_gain"@, "eq_mid_gain"@, "eq_high_gain"@], (10, 30, 24), (0, 255, 170)),
            None => ("Slot"@, seq![], (20, 20, 30), (100, 100, 140)),
    }
}

/// The panel for a slot of this type (see `panel_for`).
pub fn slot_meta(slot_type: &str) -> (r: SlotMeta)
    ensures
        (r.title@, r.knobs@.map_values(|k: &'static str| k@), r.color, r.accent) == panel_for(kind_of_slot_type(slot_type@)),
{
    let r: SlotMeta = match effect_kind_for(slot_type) {
            Some(EffectKind::Nam) => SlotMeta {
                title: "Amp",
                knobs: vec!["amp_gain", "amp_bass", "amp_middle", "amp_high", "amp_output"],
                color: (34, 23, 53),
                accent: (224, 122, 95),
            },
            Some(EffectKind::Cab) => SlotMeta {
                title: "Cab",
                knobs: vec!["cab_gain", "cab_position", "cab_size"],
                color: (34, 28, 38),
                accent: (224, 122, 95),
            },
            Some(EffectKind::Pitch) => SlotMeta {
                title: "Pitch Shifter",
                knobs: vec!["pitch_gain", "pitch_semi", "pitch_mix"],
                color: (15, 32, 46),
                accent: (0, 210, 255),
            },
            Some(EffectKind::Delay) => SlotMeta {
                title: "Delay",
                knobs: vec!["delay_time", "delay_feedback", "delay_ducking", "delay_mix"],
                color: (8, 20, 31),
                accent: (0, 210, 255),
            },
            Some(EffectKind::Reverb) => SlotMeta {
                title: "Reverb",
                knobs: vec!["reverb_space", "reverb_ducking", "reverb_mix"],
                color: (29, 26, 53),
                accent: (162, 125, 223),
            },
            Some(EffectKind::Gate) => SlotMeta {
                title: "Gate",
                knobs: vec!["gate_threshold", "gate_attack", "gate_release"],
                color: (17, 34, 26),
                accent: (74, 222, 128),
            },
            Some(EffectKind::Bitcrusher) => SlotMeta {
                title: "Bitcrusher",
                knobs: vec!["bitcrush_bits", "bitcrush_downsample", "bitcrush_mix"],
                color: (30, 15, 15),
                accent: (255, 69, 69),
            },
            Some(EffectKind::Overdrive) => SlotMeta {
                title: "Overdrive",
                knobs: vec!["overdrive_drive", "overdrive_tone", "overdrive_level"],
                color: (30, 24, 10),
                accent: (255, 170, 0),
            },
            Some(EffectKind::Eq) => SlotMeta {
                title: "EQ",
                knobs: vec!["eq_low_gain", "eq_mid_gain", "eq_high_gain"],
                color: (10, 30, 24),
                accent: (0, 255, 170),
            },
            None => SlotMeta {
                title: "Slot",
                knobs: vec![],
                color: (20, 20, 30),
                accent: (100, 100, 140),
            },
    };
    assert(r.knobs@.map_values(|k: &'static str| k@) =~= panel_for(kind_of_slot_type(slot_type@)).1);
    r
}

/// The rack order after moving the slot at position `pos` one place up
/// (towards the front) or down: it trades places with its neighbour; at
/// the front (moving up) or the back (moving down) the order stays.
pub open spec fn moved_order(order: Seq<usize>, pos: int, up: bool) -> Seq<usize> {
    if up && pos > 0 {
        order.update(pos, order[pos - 1]).update(pos - 1, order[pos])
    } else if !up && pos < order.len() - 1 {
        order.update(pos, order[pos + 1]).update(pos + 1, order[pos])
    } else {
        order
    }
}

/// Moves the slot at rack position `pos` one place up or down (see
/// `moved_order`); returns whether two entries traded places.
pub fn move_in_order(order: &mut [usize; 5], pos: usize, up: bool) -> (moved: bool)
    requires
        up ==> pos < 5,
    ensures
        final(order)@ == moved_order(old(order)@, pos as int, up),
        moved == if up { pos > 0 } else { pos < 4 },
{
    if up && pos > 0 {
        let a: usize = order[pos];
        let b: usize = order[pos - 1];
        order[pos] = b;
        order[pos - 1] = a;
        true
    } else if !up && pos < 4 {
        let a: usize = order[pos];
        let b: usize = order[pos + 1];
        order[pos] = b;
        order[pos + 1] = a;
        true
    } else {
        false
    }
}

/// Moving a slot up and then moving it back down restores the order.
pub proof fn law_move_up_then_down(order: Seq<usize>, pos: int)
    requires
        0 < pos < order.len(),
    ensures
        moved_order(moved_order(order, pos, true), pos - 1, false) == order,
{
    assert(moved_order(moved_order(order, pos, true), pos - 1, false) =~= order);
}

} // verus!
