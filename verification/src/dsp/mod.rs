//! Effect-slot logic: slot kinds, reconciliation of the rack with a new
//! configuration, and the bookkeeping of blocks whose tails ring out.

pub mod overdrive;
pub mod pitch_detector;
pub mod pitch_shifter;
pub mod reconcile;
pub mod ring;
pub mod tuner;

use vstd::prelude::*;
use crate::text::text_eq;
use crate::dsp::overdrive::Overdrive;

verus! {

/// The kinds of effect a slot can hold.
#[derive(Debug, Clone, Copy, PartialEq, Eq, Structural)]
pub enum EffectKind {
    Pitch,
    Nam,
    Cab,
    Delay,
    Reverb,
    Gate,
    Bitcrusher,
    Overdrive,
    Eq,
}

/// The effect kind that a slot type names, if any: `pitch`, `amp` (a NAM
/// model), `cab`, `delay`, `shimmer` or `verb` (reverb), `gate`, `error`
/// (bitcrusher), `od` (overdrive) and `eq`.
pub open spec fn kind_of_slot_type(t: Seq<char>) -> Option<EffectKind> {
    if t == "pitch"@ {
        Some(EffectKind::Pitch)
    } else if t == "amp"@ {
        Some(EffectKind::Nam)
    } else if t == "cab"@ {
        Some(EffectKind::Cab)
    } else if t == "delay"@ {
        Some(EffectKind::Delay)
    } else if t == "shimmer"@ || t == "verb"@ {
        Some(EffectKind::Reverb)
    } else if t == "gate"@ {
        Some(EffectKind::Gate)
    } else if t == "error"@ {
        Some(EffectKind::Bitcrusher)
    } else if t == "od"@ {
        Some(EffectKind::Overdrive)
    } else if t == "eq"@ {
        Some(EffectKind::Eq)
    } else {
        None
    }
}

/// The effect kind for a slot type, as `kind_of_slot_type` states it.
pub fn effect_kind_for(slot_type: &str) -> (r: Option<EffectKind>)
    ensures
        r == kind_of_slot_type(slot_type@),
{
    if text_eq(slot_type, "pitch") {
        Some(EffectKind::Pitch)
    } else if text_eq(slot_type, "amp") {
        Some(EffectKind::Nam)
    } else if text_eq(slot_type, "cab") {
        Some(EffectKind::Cab)
    } else if text_eq(slot_type, "delay") {
        Some(EffectKind::Delay)
    } else if text_eq(slot_type, "shimmer") || text_eq(slot_type, "verb") {
        Some(EffectKind::Reverb)
    } else if text_eq(slot_type, "gate") {
        Some(EffectKind::Gate)
    } else if text_eq(slot_type, "error") {
        Some(EffectKind::Bitcrusher)
    } else if text_eq(slot_type, "od") {
        Some(EffectKind::Overdrive)
    } else if text_eq(slot_type, "eq") {
        Some(EffectKind::Eq)
    } else {
        None
    }
}

/// Slot types whose tails ring out: `delay`, `verb` and `shimmer`.
pub open spec fn is_space_slot_type(t: Seq<char>) -> bool {
    t == "delay"@ || t == "verb"@ || t == "shimmer"@
}

/// Returns true for slot types whose tails should ring out naturally.
pub fn is_space_effect(slot_type: &str) -> (r: bool)
    ensures
        r == is_space_slot_type(slot_type@),
{
    text_eq(slot_type, "delay") || text_eq(slot_type, "verb") || text_eq(slot_type, "shimmer")
}

/// The kind of block a saved slot comes back as: slots of an unknown type
/// are left out, and pitch slots too unless `with_pitch` (the plugin's
/// first construction leaves them out; initialisation keeps them).
pub open spec fn restored_kind_of(t: Seq<char>, with_pitch: bool) -> Option<EffectKind> {
    match kind_of_slot_type(t) {
        Some(EffectKind::Pitch) => if with_pitch { Some(EffectKind::Pitch) } else { None },
        k => k,
    }
}

/// A saved slot comes back as the kind its type names: every known kind
/// other than pitch always, pitch exactly when pitch slots are kept, and a
/// slot of an unknown type never.
pub proof fn law_restored_slots_keep_their_kind(t: Seq<char>, with_pitch: bool)
    ensures
        kind_of_slot_type(t) is Some && kind_of_slot_type(t) != Some(EffectKind::Pitch)
            ==> restored_kind_of(t, with_pitch) == kind_of_slot_type(t),
        kind_of_slot_type(t) == Some(EffectKind::Pitch)
            ==> (restored_kind_of(t, with_pitch) is Some <==> with_pitch),
        restored_kind_of(t, with_pitch) is Some ==> restored_kind_of(t, with_pitch) == kind_of_slot_type(t),
{
}

/// The kind of block a saved slot comes back as (see `restored_kind_of`).
pub fn restored_kind(slot_type: &str, with_pitch: bool) -> (r: Option<EffectKind>)
    ensures
        r == restored_kind_of(slot_type@, with_pitch),
{
    match effect_kind_for(slot_type) {
        Some(EffectKind::Pitch) => if with_pitch { Some(EffectKind::Pitch) } else { None },
        k => k,
    }
}

/// A slot's effect together with its processing state.  The state types
/// are the host's sample processors (model runner, convolver, delay line,
/// reverb, gate, bitcrusher and equaliser).
pub enum EffectType<N, C, D, R, G, B, E> {
    Pitch,
    Nam { block: N, model_path: Option<Vec<u8>>, model_name: String },
    Cab { convolver: C, ir_path: Option<Vec<u8>>, ir_name: String, normalize: bool },
    Delay { delay: D },
    Reverb { reverb: R },
    Gate { gate: G },
    Bitcrusher { crusher: B },
    Overdrive { od: Overdrive },
    Eq { eq: E },
}

/// The bytes an optional byte vector holds.
pub open spec fn bytes_of(o: Option<Vec<u8>>) -> Option<Seq<u8>> {
    match o {
        Some(v) => Some(v@),
        None => None,
    }
}

/// A copy of an optional byte vector.
pub fn clone_optional_bytes(s: &Option<Vec<u8>>) -> (r: Option<Vec<u8>>)
    ensures
        bytes_of(r) == bytes_of(*s),
{
    match s {
        Some(v) => {
            let mut c: Vec<u8> = Vec::new();
            let mut i: usize = 0;
            while i < v.len()
                invariant
                    i <= v@.len(),
                    c@ == v@.take(i as int),
                decreases v@.len() - i,
            {
                c.push(v[i]);
                assert(v@.take(i + 1) =~= v@.take(i as int).push(v@[i as int]));
                i = i + 1;
            }
            assert(v@.take(v@.len() as int) =~= v@);
            Some(c)
        },
        None => None,
    }
}

impl<N, C, D, R, G, B, E> EffectType<N, C, D, R, G, B, E> {
    /// The kind of this effect.
    pub open spec fn spec_kind(&self) -> EffectKind {
        match self {
            EffectType::Pitch => EffectKind::Pitch,
            EffectType::Nam { .. } => EffectKind::Nam,
            EffectType::Cab { .. } => EffectKind::Cab,
            EffectType::Delay { .. } => EffectKind::Delay,
            EffectType::Reverb { .. } => EffectKind::Reverb,
            EffectType::Gate { .. } => EffectKind::Gate,
            EffectType::Bitcrusher { .. } => EffectKind::Bitcrusher,
            EffectType::Overdrive { .. } => EffectKind::Overdrive,
            EffectType::Eq { .. } => EffectKind::Eq,
        }
    }

    /// The file a model or impulse response was loaded from, as the bytes
    /// of its path.
    pub open spec fn spec_source(&self) -> Option<Seq<u8>> {
        match self {
            EffectType::Nam { model_path, .. } => bytes_of(*model_path),
            EffectType::Cab { ir_path, .. } => bytes_of(*ir_path),
            _ => None,
        }
    }

    /// Whether a cabinet's impulse response is normalised.
    pub open spec fn spec_normalize(&self) -> bool {
        match self {
            EffectType::Cab { normalize, .. } => *normalize,
            _ => false,
        }
    }

    /// The kind of this effect.
    pub fn kind(&self) -> (r: EffectKind)
        ensures
            r == self.spec_kind(),
    {
        match self {
            EffectType::Pitch => EffectKind::Pitch,
            EffectType::Nam { .. } => EffectKind::Nam,
            EffectType::Cab { .. } => EffectKind::Cab,
            EffectType::Delay { .. } => EffectKind::Delay,
            EffectType::Reverb { .. } => EffectKind::Reverb,
            EffectType::Gate { .. } => EffectKind::Gate,
            EffectType::Bitcrusher { .. } => EffectKind::Bitcrusher,
            EffectType::Overdrive { .. } => EffectKind::Overdrive,
            EffectType::Eq { .. } => EffectKind::Eq,
        }
    }

    /// The file the effect's model or impulse response came from, for the
    /// two kinds that load one.
    pub fn source_path(&self) -> (r: Option<Vec<u8>>)
        ensures
            bytes_of(r) == self.spec_source(),
    {
        match self {
            EffectType::Nam { model_path, .. } => clone_optional_bytes(model_path),
            EffectType::Cab { ir_path, .. } => clone_optional_bytes(ir_path),
            _ => None,
        }
    }

    /// Whether the effect is a cabinet with a normalised impulse response.
    pub fn normalize_flag(&self) -> (r: bool)
        ensures
            r == self.spec_normalize(),
    {
        match self {
            EffectType::Cab { normalize, .. } => *normalize,
            _ => false,
        }
    }
}


/// What the rack does with one of its blocks for the current buffer.
#[derive(Debug, Clone, Copy, PartialEq, Eq, Structural)]
pub enum BlockMode {
    /// Bypassed: the buffer passes unchanged.
    Skip,
    /// Bypassed with its tail let out: the block starts to fade, from full
    /// level, fed silence.
    StartFade,
    /// Fading: fed silence, its output added at the fade level.
    ContinueFade,
    /// Active: the block processes the buffer.
    Run,
}

/// Where a block stands in letting its tail ring out.
#[derive(Debug, Clone, Copy, PartialEq, Eq, Structural)]
pub struct TailState {
    /// Its tail is fading out.
    pub fading_out: bool,
    /// Its tail has faded out since the block last ran: it stays silent
    /// while bypassed.
    pub faded: bool,
}

/// The mode of a block.  A bypassed delay or reverb set to let its tail
/// out keeps fading while it fades, stays silent once its tail has faded,
/// and starts fading otherwise; any other bypassed block is skipped.  A
/// block that is not bypassed keeps fading while it fades, and runs
/// otherwise.
pub open spec fn spec_block_mode(bypassed: bool, tail_out: bool, slot_type: Seq<char>, state: TailState) -> BlockMode {
    if bypassed {
        if tail_out && is_space_slot_type(slot_type) {
            if state.fading_out {
                BlockMode::ContinueFade
            } else if state.faded {
                BlockMode::Skip
            } else {
                BlockMode::StartFade
            }
        } else {
            BlockMode::Skip
        }
    } else if state.fading_out {
        BlockMode::ContinueFade
    } else {
        BlockMode::Run
    }
}

/// The mode of a block in the rack for the current buffer.
pub fn block_mode(bypassed: bool, tail_out: bool, slot_type: &str, state: TailState) -> (m: BlockMode)
    ensures
        m == spec_block_mode(bypassed, tail_out, slot_type@, state),
{
    if bypassed {
        if tail_out && is_space_effect(slot_type) {
            if state.fading_out {
                BlockMode::ContinueFade
            } else if state.faded {
                BlockMode::Skip
            } else {
                BlockMode::StartFade
            }
        } else {
            BlockMode::Skip
        }
    } else if state.fading_out {
        BlockMode::ContinueFade
    } else {
        BlockMode::Run
    }
}

/// The tail state after a buffer run in mode `mode`; `finished` says
/// whether a fade run in this buffer reached silence.  A skipped block
/// keeps its state; a fade either goes on or ends with the tail faded; a
/// block that ran has no tail fading and none faded.
pub open spec fn spec_after_buffer(mode: BlockMode, state: TailState, finished: bool) -> TailState {
    match mode {
        BlockMode::Skip => state,
        BlockMode::StartFade | BlockMode::ContinueFade => if finished {
            TailState { fading_out: false, faded: true }
        } else {
            TailState { fading_out: true, faded: state.faded }
        },
        BlockMode::Run => TailState { fading_out: false, faded: false },
    }
}

/// The tail state after a buffer (see `spec_after_buffer`).
pub fn after_buffer(mode: BlockMode, state: TailState, finished: bool) -> (r: TailState)
    ensures
        r == spec_after_buffer(mode, state, finished),
{
    match mode {
        BlockMode::Skip => state,
        BlockMode::StartFade | BlockMode::ContinueFade => if finished {
            TailState { fading_out: false, faded: true }
        } else {
            TailState { fading_out: true, faded: state.faded }
        },
        BlockMode::Run => TailState { fading_out: false, faded: false },
    }
}

/// A bypassed delay or reverb that lets its tail out fades it once: a fade
/// starts only when none runs and none has ended; once started it goes on
/// from buffer to buffer until it reaches silence; after that the block is
/// skipped, its state unchanged, for as long as it stays bypassed.
pub proof fn law_bypassed_tail_fades_once(tail_out: bool, slot_type: Seq<char>, s: TailState, finished: bool)
    requires
        tail_out,
        is_space_slot_type(slot_type),
    ensures
        (spec_block_mode(true, tail_out, slot_type, s) == BlockMode::StartFade) == (!s.fading_out && !s.faded),
        ({
            let m = spec_block_mode(true, tail_out, slot_type, s);
            m != BlockMode::Skip ==> spec_block_mode(true, tail_out, slot_type, spec_after_buffer(m, s, finished))
                == if finished { BlockMode::Skip } else { BlockMode::ContinueFade }
        }),
        s.faded && !s.fading_out ==> spec_block_mode(true, tail_out, slot_type, s) == BlockMode::Skip
            && spec_after_buffer(BlockMode::Skip, s, finished) == s,
{
}

/// A block that runs again clears its tail state, so that bypassing it
/// later lets its tail fade out again.
pub proof fn law_running_block_can_fade_again(tail_out: bool, slot_type: Seq<char>, s: TailState, finished: bool)
    requires
        !s.fading_out,
        tail_out,
        is_space_slot_type(slot_type),
    ensures
        spec_block_mode(false, tail_out, slot_type, s) == BlockMode::Run,
        spec_block_mode(true, tail_out, slot_type, spec_after_buffer(BlockMode::Run, s, finished)) == BlockMode::StartFade,
{
}

/// The items of `s` whose flag in `drop` is not set, in order.
pub open spec fn kept_items<T>(s: Seq<T>, drop: Seq<bool>) -> Seq<T>
    decreases s.len(),
{
    if s.len() == 0 || drop.len() == 0 {
        seq![]
    } else {
        let prev = kept_items(s.drop_last(), drop.drop_last());
        if drop.last() {
            prev
        } else {
            prev.push(s.last())
        }
    }
}

/// Removes from `v` the items whose flag in `drop` is set, keeping the
/// order of the others (the tail list drops the blocks that have faded).
pub fn remove_flagged<T>(v: &mut Vec<T>, drop: &Vec<bool>)
    requires
        drop@.len() == old(v)@.len(),
    ensures
        final(v)@ == kept_items(old(v)@, drop@),
{
    let ghost all = v@;
    let mut rest: Vec<T> = Vec::new();
    std::mem::swap(v, &mut rest);
    let n: usize = rest.len();
    let mut i: usize = 0;
    while i < n
        invariant
            n == all.len(),
            drop@.len() == n,
            i <= n,
            rest@ == all.skip(i as int),
            v@ == kept_items(all.take(i as int), drop@.take(i as int)),
        decreases n - i,
    {
        let x: T = rest.remove(0);
        proof {
            assert(all.take(i + 1).drop_last() =~= all.take(i as int));
            assert(drop@.take(i + 1).drop_last() =~= drop@.take(i as int));
            assert(all.skip(i as int).remove(0) =~= all.skip(i + 1));
        }
        if !drop[i] {
            v.push(x);
        }
        i = i + 1;
    }
    assert(all.take(n as int) =~= all);
    assert(drop@.take(n as int) =~= drop@);
}

} // verus!
