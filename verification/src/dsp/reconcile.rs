//! Reconciling the rack with a new slot configuration.
//!
//! Given the blocks now in the rack and the configuration the editor sent,
//! `plan_reconcile` decides, slot by slot, which existing block keeps its
//! processing state and which slot starts fresh, and which removed blocks
//! move to the tail list to ring out.  The host carries the plan out.

use vstd::prelude::*;
use crate::paths::{paths_equal, same_path};
use crate::dsp::{EffectKind, effect_kind_for, is_space_effect, kind_of_slot_type, is_space_slot_type};

verus! {

/// What the plan needs to know of a block in the rack.
pub struct BlockSummary {
    pub id: String,
    pub slot_type: String,
    pub kind: EffectKind,
    /// Model or impulse-response file, for the kinds that load one, as the
    /// bytes of its path.
    pub source: Option<Vec<u8>>,
    /// Whether a cabinet's impulse response is normalised.
    pub normalize: bool,
    pub tail_out: bool,
}

/// What the plan needs to know of a slot in the new configuration.
pub struct ConfigSummary {
    pub id: String,
    pub slot_type: String,
    /// The slot's file, as the bytes of its path.
    pub path: Option<Vec<u8>>,
    /// Requested normalisation for a cabinet slot.
    pub normalize: bool,
}

/// How one configured slot gets its block.
#[derive(Debug, Clone, Copy, PartialEq, Eq, Structural)]
pub enum SlotAction {
    /// Take over the rack's block at `old_index`, with its processing
    /// state; `renormalize` asks to switch a cabinet's normalisation.
    Reuse { old_index: usize, renormalize: bool },
    /// Start a fresh block of this kind.
    Create { kind: EffectKind },
}

/// The block for the configured slot at `config_index`.
#[derive(Debug, Clone, Copy, PartialEq, Eq, Structural)]
pub struct SlotStep {
    pub config_index: usize,
    pub action: SlotAction,
}

/// The new rack, in configuration order, and the rack blocks (by index,
/// ascending) that move to the tail list.  Blocks named in neither are
/// dropped.
pub struct ReconcilePlan {
    pub steps: Vec<SlotStep>,
    pub fading: Vec<usize>,
}

/// Kinds whose slot takes over the rack's block with the same id, so that
/// its model, impulse response or buffers survive a reconfiguration.
pub open spec fn keeps_state(kind: EffectKind) -> bool {
    kind == EffectKind::Nam || kind == EffectKind::Cab || kind == EffectKind::Delay
        || kind == EffectKind::Reverb
}

/// Both absent, or both present and naming the same file (see `same_path`;
/// `windows` selects Windows path rules).
pub open spec fn same_source(a: Option<Vec<u8>>, b: Option<Vec<u8>>, windows: bool) -> bool {
    match (a, b) {
        (Some(x), Some(y)) => same_path(x@, y@, windows),
        (None, None) => true,
        _ => false,
    }
}

/// A block can be taken over by a slot of `kind`: same kind, and for a NAM
/// model or a cabinet, the same file.
pub open spec fn can_reuse(b: BlockSummary, c: ConfigSummary, kind: EffectKind, windows: bool) -> bool {
    &&& b.kind == kind
    &&& (kind == EffectKind::Nam || kind == EffectKind::Cab) ==> same_source(b.source, c.path, windows)
}

/// Index of the last block with this id: the rack looks blocks up by id,
/// and a later block shadows an earlier one with the same id.
pub open spec fn last_with_id(old: Seq<BlockSummary>, id: Seq<char>) -> Option<int>
    decreases old.len(),
{
    if old.len() == 0 {
        None
    } else if old.last().id@ == id {
        Some(old.len() - 1)
    } else {
        last_with_id(old.drop_last(), id)
    }
}

/// The step for configured slot `j`, and the rack blocks taken so far.
pub open spec fn plan_step(old: Seq<BlockSummary>, taken: Set<int>, c: ConfigSummary, j: int, windows: bool) -> (Option<SlotStep>, Set<int>) {
    match kind_of_slot_type(c.slot_type@) {
        None => (None, taken),
        Some(kind) => {
            let e = last_with_id(old, c.id@);
            if keeps_state(kind) && e is Some && !taken.contains(e->0) {
                let i = e->0;
                let action = if can_reuse(old[i], c, kind, windows) {
                    SlotAction::Reuse {
                        old_index: i as usize,
                        renormalize: kind == EffectKind::Cab && old[i].normalize != c.normalize,
                    }
                } else {
                    SlotAction::Create { kind }
                };
                (Some(SlotStep { config_index: j as usize, action }), taken.insert(i))
            } else {
                (Some(SlotStep { config_index: j as usize, action: SlotAction::Create { kind } }), taken)
            }
        },
    }
}

/// The steps for all configured slots, in order, and the rack blocks that
/// they took.
pub open spec fn plan_steps(old: Seq<BlockSummary>, configs: Seq<ConfigSummary>, windows: bool) -> (Seq<SlotStep>, Set<int>)
    decreases configs.len(),
{
    if configs.len() == 0 {
        (seq![], Set::empty())
    } else {
        let prev = plan_steps(old, configs.drop_last(), windows);
        let next = plan_step(old, prev.1, configs.last(), configs.len() - 1, windows);
        match next.0 {
            Some(s) => (prev.0.push(s), next.1),
            None => (prev.0, next.1),
        }
    }
}

/// Rack block `i` rings out: it is the block its id finds, no slot took
/// it, it is a delay or reverb, and it was set to let its tail out.
pub open spec fn fades_out(old: Seq<BlockSummary>, taken: Set<int>, i: int) -> bool {
    &&& last_with_id(old, old[i].id@) == Some(i)
    &&& !taken.contains(i)
    &&& is_space_slot_type(old[i].slot_type@)
    &&& old[i].tail_out
}

/// The indices below `n` of blocks that ring out, ascending.
pub open spec fn fading_indices(old: Seq<BlockSummary>, taken: Set<int>, n: int) -> Seq<usize>
    decreases n,
{
    if n <= 0 {
        seq![]
    } else {
        let prev = fading_indices(old, taken, n - 1);
        if fades_out(old, taken, n - 1) {
            prev.push((n - 1) as usize)
        } else {
            prev
        }
    }
}

proof fn lemma_last_with_id(old: Seq<BlockSummary>, id: Seq<char>)
    ensures
        match last_with_id(old, id) {
            Some(i) => 0 <= i < old.len() && old[i].id@ == id
                && forall|k: int| i < k < old.len() ==> #[trigger] old[k].id@ != id,
            None => forall|k: int| 0 <= k < old.len() ==> #[trigger] old[k].id@ != id,
        },
    decreases old.len(),
{
    if old.len() > 0 {
        lemma_last_with_id(old.drop_last(), id);
        assert(forall|k: int| 0 <= k < old.len() - 1 ==> old.drop_last()[k] == #[trigger] old[k]);
    }
}

/// Index of the last block whose id is `id`.
fn last_index_with_id(old: &Vec<BlockSummary>, id: &String) -> (r: Option<usize>)
    ensures
        match r {
            Some(i) => last_with_id(old@, id@) == Some(i as int),
            None => last_with_id(old@, id@) is None,
        },
{
    let mut i: usize = old.len();
    while i > 0
        invariant
            i <= old@.len(),
            forall|k: int| i <= k < old@.len() ==> #[trigger] old@[k].id@ != id@,
        decreases i,
    {
        if old[i - 1].id == *id {
            proof {
                lemma_last_with_id(old@, id@);
                let r = last_with_id(old@, id@);
                assert(old@[i - 1].id@ == id@);
                if r is Some {
                    let j = r->0;
                    if j < i - 1 {
                        assert(old@[i - 1].id@ != id@);
                    } else if j > i - 1 {
                        assert(old@[j].id@ != id@);
                    }
                }
            }
            return Some(i - 1);
        }
        i = i - 1;
    }
    proof { lemma_last_with_id(old@, id@); }
    None
}

/// Plans how the rack's blocks `old` become the slots `configs`.
///
/// Slots are taken in order.  A slot of an unknown type is skipped.  A NAM
/// model, cabinet, delay or reverb slot takes the rack block with its id if
/// no earlier slot took it: it keeps that block's state when the kinds
/// match (and, for a model or cabinet, the file is the same), and starts
/// fresh otherwise; the block is then no longer available.  Other slots
/// start fresh.  Afterwards every block that its id finds, that no slot
/// took, that is a delay or reverb and was set to let its tail out, rings
/// out; all other blocks are dropped.  Files are compared as paths (see
/// `same_path`), with Windows rules when `windows` is set.
pub fn plan_reconcile(old: &Vec<BlockSummary>, configs: &Vec<ConfigSummary>, windows: bool) -> (p: ReconcilePlan)
    ensures
        p.steps@ == plan_steps(old@, configs@, windows).0,
        p.fading@ == fading_indices(old@, plan_steps(old@, configs@, windows).1, old@.len() as int),
{
    let mut steps: Vec<SlotStep> = Vec::new();
    let mut taken: Vec<bool> = Vec::new();
    let mut t: usize = 0;
    while t < old.len()
        invariant
            t <= old@.len(),
            taken@.len() == t,
            forall|k: int| 0 <= k < t ==> !#[trigger] taken@[k],
        decreases old@.len() - t,
    {
        taken.push(false);
        t = t + 1;
    }
    let ghost mut taken_set: Set<int> = Set::empty();
    let mut j: usize = 0;
    while j < configs.len()
        invariant
            j <= configs@.len(),
            taken@.len() == old@.len(),
            steps@ == plan_steps(old@, configs@.take(j as int), windows).0,
            taken_set == plan_steps(old@, configs@.take(j as int), windows).1,
            forall|k: int| 0 <= k < old@.len() ==> (#[trigger] taken@[k] <==> taken_set.contains(k)),
        decreases configs@.len() - j,
    {
        let c: &ConfigSummary = &configs[j];
        proof {
            assert(configs@.take(j + 1).drop_last() =~= configs@.take(j as int));
            assert(configs@.take(j + 1).last() == *c);
        }
        let ghost step = plan_step(old@, taken_set, *c, j as int, windows);
        match effect_kind_for(c.slot_type.as_str()) {
            None => {},
            Some(kind) => {
                let stateful: bool = match kind {
                    EffectKind::Nam | EffectKind::Cab | EffectKind::Delay | EffectKind::Reverb => true,
                    _ => false,
                };
                let e: Option<usize> = if stateful { last_index_with_id(old, &c.id) } else { None };
                proof { lemma_last_with_id(old@, c.id@); }
                match e {
                    Some(i) if !taken[i] => {
                        let b: &BlockSummary = &old[i];
                        let file_matters: bool = match kind {
                            EffectKind::Nam | EffectKind::Cab => true,
                            _ => false,
                        };
                        let same: bool = match (&b.source, &c.path) {
                            (Some(x), Some(y)) => paths_equal(x, y, windows),
                            (None, None) => true,
                            _ => false,
                        };
                        let reuse: bool = b.kind == kind && (!file_matters || same);
                        let action: SlotAction = if reuse {
                            let is_cab: bool = match kind {
                                EffectKind::Cab => true,
                                _ => false,
                            };
                            SlotAction::Reuse { old_index: i, renormalize: is_cab && b.normalize != c.normalize }
                        } else {
                            SlotAction::Create { kind }
                        };
                        steps.push(SlotStep { config_index: j, action });
                        taken.set(i, true);
                        proof { taken_set = taken_set.insert(i as int); }
                    },
                    _ => {
                        steps.push(SlotStep { config_index: j, action: SlotAction::Create { kind } });
                    },
                }
            },
        }
        assert(steps@ == plan_steps(old@, configs@.take(j + 1), windows).0);
        j = j + 1;
    }
    assert(configs@.take(configs@.len() as int) =~= configs@);

    let mut fading: Vec<usize> = Vec::new();
    let mut i: usize = 0;
    while i < old.len()
        invariant
            i <= old@.len(),
            taken@.len() == old@.len(),
            taken_set == plan_steps(old@, configs@, windows).1,
            forall|k: int| 0 <= k < old@.len() ==> (#[trigger] taken@[k] <==> taken_set.contains(k)),
            fading@ == fading_indices(old@, taken_set, i as int),
        decreases old@.len() - i,
    {
        let b: &BlockSummary = &old[i];
        let found: Option<usize> = last_index_with_id(old, &b.id);
        let is_last: bool = match found {
            Some(k) => k == i,
            None => false,
        };
        if is_last && !taken[i] && is_space_effect(b.slot_type.as_str()) && b.tail_out {
            fading.push(i);
        }
        i = i + 1;
    }
    ReconcilePlan { steps, fading }
}


/// The rack block a step takes over, if any.
pub open spec fn reused_index(s: SlotStep) -> Option<int> {
    match s.action {
        SlotAction::Reuse { old_index, .. } => Some(old_index as int),
        SlotAction::Create { .. } => None,
    }
}

proof fn lemma_plan_steps_shape(old: Seq<BlockSummary>, configs: Seq<ConfigSummary>, windows: bool)
    requires
        old.len() <= usize::MAX,
        configs.len() <= usize::MAX,
    ensures
        ({
            let steps = plan_steps(old, configs, windows).0;
            let taken = plan_steps(old, configs, windows).1;
            &&& forall|x: int| #[trigger] taken.contains(x) ==> 0 <= x < old.len()
            &&& forall|a: int| 0 <= a < steps.len() && #[trigger] reused_index(steps[a]) is Some
                ==> taken.contains(reused_index(steps[a])->0)
            &&& forall|a: int, b: int| 0 <= a < b < steps.len() && #[trigger] reused_index(steps[a]) is Some
                && #[trigger] reused_index(steps[b]) is Some ==> reused_index(steps[a]) != reused_index(steps[b])
            &&& forall|a: int| 0 <= a < steps.len() ==> #[trigger] steps[a].config_index < configs.len()
            &&& forall|a: int, b: int| 0 <= a < b < steps.len()
                ==> #[trigger] steps[a].config_index < #[trigger] steps[b].config_index
        }),
    decreases configs.len(),
{
    if configs.len() > 0 {
        let prev = configs.drop_last();
        lemma_plan_steps_shape(old, prev, windows);
        lemma_last_with_id(old, configs.last().id@);
        let p = plan_steps(old, prev, windows);
        let next = plan_step(old, p.1, configs.last(), configs.len() - 1, windows);
        let steps = plan_steps(old, configs, windows).0;
        let taken = plan_steps(old, configs, windows).1;
        assert(taken == next.1);
        assert forall|x: int| #[trigger] taken.contains(x) implies 0 <= x < old.len() by {
            if !p.1.contains(x) {
                assert(last_with_id(old, configs.last().id@) == Some(x));
            }
        }
        if next.0 is Some {
            let st = next.0->0;
            assert(steps == p.0.push(st));
            assert(st.config_index == configs.len() - 1);
            assert forall|a: int| 0 <= a < steps.len() && #[trigger] reused_index(steps[a]) is Some
                implies taken.contains(reused_index(steps[a])->0) by {
                if a < p.0.len() {
                    assert(steps[a] == p.0[a]);
                }
            }
            assert forall|a: int, b: int| 0 <= a < b < steps.len() && #[trigger] reused_index(steps[a]) is Some
                && #[trigger] reused_index(steps[b]) is Some implies reused_index(steps[a]) != reused_index(steps[b]) by {
                assert(steps[a] == p.0[a]);
                if b < p.0.len() {
                    assert(steps[b] == p.0[b]);
                } else {
                    assert(p.1.contains(reused_index(p.0[a])->0));
                    assert(!p.1.contains(reused_index(st)->0));
                }
            }
            assert forall|a: int| 0 <= a < steps.len() implies #[trigger] steps[a].config_index < configs.len() by {
                if a < p.0.len() {
                    assert(steps[a] == p.0[a]);
                }
            }
            assert forall|a: int, b: int| 0 <= a < b < steps.len()
                implies #[trigger] steps[a].config_index < #[trigger] steps[b].config_index by {
                assert(steps[a] == p.0[a]);
                if b < p.0.len() {
                    assert(steps[b] == p.0[b]);
                }
            }
        } else {
            assert(steps == p.0);
        }
    }
}

proof fn lemma_fading_shape(old: Seq<BlockSummary>, taken: Set<int>, n: int)
    requires
        n <= old.len(),
        old.len() <= usize::MAX,
    ensures
        ({
            let f = fading_indices(old, taken, n);
            &&& forall|a: int| 0 <= a < f.len() ==> 0 <= #[trigger] f[a] < n && fades_out(old, taken, f[a] as int)
            &&& forall|a: int, b: int| 0 <= a < b < f.len() ==> #[trigger] f[a] < #[trigger] f[b]
        }),
    decreases n,
{
    if n > 0 {
        lemma_fading_shape(old, taken, n - 1);
        let prev = fading_indices(old, taken, n - 1);
        if fades_out(old, taken, n - 1) {
            let f = prev.push((n - 1) as usize);
            assert(fading_indices(old, taken, n) == f);
            assert forall|a: int| 0 <= a < f.len() implies 0 <= #[trigger] f[a] < n && fades_out(old, taken, f[a] as int) by {
                if a < prev.len() {
                    assert(f[a] == prev[a]);
                }
            }
            assert forall|a: int, b: int| 0 <= a < b < f.len() implies #[trigger] f[a] < #[trigger] f[b] by {
                assert(f[a] == prev[a]);
                if b < prev.len() {
                    assert(f[b] == prev[b]);
                }
            }
        }
    }
}

/// Every rack block is handed on at most once: no two slots take over the
/// same block, and no block that rings out is also taken over by a slot.
/// The blocks that ring out are listed once each, ascending, and each is a
/// delay or reverb set to let its tail out that no slot took over.
pub proof fn law_each_block_handed_on_once(old: Seq<BlockSummary>, configs: Seq<ConfigSummary>, windows: bool)
    requires
        old.len() <= usize::MAX,
        configs.len() <= usize::MAX,
    ensures
        ({
            let steps = plan_steps(old, configs, windows).0;
            let fading = fading_indices(old, plan_steps(old, configs, windows).1, old.len() as int);
            &&& forall|a: int| 0 <= a < steps.len() && #[trigger] reused_index(steps[a]) is Some
                ==> 0 <= reused_index(steps[a])->0 < old.len()
            &&& forall|a: int, b: int| 0 <= a < b < steps.len() && #[trigger] reused_index(steps[a]) is Some
                && #[trigger] reused_index(steps[b]) is Some ==> reused_index(steps[a]) != reused_index(steps[b])
            &&& forall|a: int, f: int| 0 <= a < steps.len() && 0 <= f < fading.len()
                && #[trigger] reused_index(steps[a]) is Some ==> reused_index(steps[a])->0 != #[trigger] fading[f]
            &&& forall|f: int| 0 <= f < fading.len() ==> #[trigger] fading[f] < old.len()
            &&& forall|f: int, g: int| 0 <= f < g < fading.len() ==> #[trigger] fading[f] < #[trigger] fading[g]
            &&& forall|f: int| 0 <= f < fading.len() ==> {
                let b = old[#[trigger] fading[f] as int];
                &&& is_space_slot_type(b.slot_type@)
                &&& b.tail_out
                &&& last_with_id(old, b.id@) == Some(fading[f] as int)
                &&& forall|a: int| 0 <= a < steps.len() ==> #[trigger] reused_index(steps[a]) != Some(fading[f] as int)
            }
        }),
{
    lemma_plan_steps_shape(old, configs, windows);
    lemma_fading_shape(old, plan_steps(old, configs, windows).1, old.len() as int);
}


/// What a step says of its configured slot `c`: the slot type names a
/// kind; a kept block has the slot's id, the kind the slot names (which
/// keeps state) and, for a model or cabinet, the same file; a fresh block
/// has the kind the slot type names.
pub open spec fn step_fits(old: Seq<BlockSummary>, st: SlotStep, c: ConfigSummary, windows: bool) -> bool {
    &&& kind_of_slot_type(c.slot_type@) is Some
    &&& match st.action {
        SlotAction::Reuse { old_index, renormalize } => {
            let b = old[old_index as int];
            let kind = kind_of_slot_type(c.slot_type@)->0;
            &&& keeps_state(kind)
            &&& b.id@ == c.id@
            &&& can_reuse(b, c, kind, windows)
            &&& renormalize == (kind == EffectKind::Cab && b.normalize != c.normalize)
        },
        SlotAction::Create { kind } => kind_of_slot_type(c.slot_type@) == Some(kind),
    }
}

proof fn lemma_steps_follow_configs(old: Seq<BlockSummary>, configs: Seq<ConfigSummary>, windows: bool)
    requires
        old.len() <= usize::MAX,
        configs.len() <= usize::MAX,
    ensures
        ({
            let steps = plan_steps(old, configs, windows).0;
            &&& forall|a: int| 0 <= a < steps.len()
                ==> step_fits(old, steps[a], configs[#[trigger] steps[a].config_index as int], windows)
            &&& forall|j: int| 0 <= j < configs.len() && #[trigger] kind_of_slot_type(configs[j].slot_type@) is Some
                ==> exists|a: int| 0 <= a < steps.len() && #[trigger] steps[a].config_index == j
        }),
    decreases configs.len(),
{
    if configs.len() > 0 {
        let prev = configs.drop_last();
        lemma_steps_follow_configs(old, prev, windows);
        lemma_plan_steps_shape(old, prev, windows);
        lemma_last_with_id(old, configs.last().id@);
        let p = plan_steps(old, prev, windows);
        let next = plan_step(old, p.1, configs.last(), configs.len() - 1, windows);
        let steps = plan_steps(old, configs, windows).0;
        let n = configs.len() - 1;
        if next.0 is Some {
            let st = next.0->0;
            assert(steps == p.0.push(st));
            assert(step_fits(old, st, configs[n], windows));
            assert forall|a: int| 0 <= a < steps.len()
                implies step_fits(old, steps[a], configs[#[trigger] steps[a].config_index as int], windows) by {
                if a < p.0.len() {
                    assert(steps[a] == p.0[a]);
                    assert(configs[p.0[a].config_index as int] == prev[p.0[a].config_index as int]);
                }
            }
            assert forall|j: int| 0 <= j < configs.len() && #[trigger] kind_of_slot_type(configs[j].slot_type@) is Some
                implies exists|a: int| 0 <= a < steps.len() && #[trigger] steps[a].config_index == j by {
                if j < n {
                    assert(configs[j] == prev[j]);
                    assert(kind_of_slot_type(prev[j].slot_type@) is Some);
                    let a = choose|a: int| 0 <= a < p.0.len() && #[trigger] p.0[a].config_index == j;
                    assert(steps[a] == p.0[a]);
                } else {
                    assert(st.config_index as int == n);
                    assert(steps[p.0.len() as int] == st);
                }
            }
        } else {
            assert(steps == p.0);
            assert forall|a: int| 0 <= a < steps.len()
                implies step_fits(old, steps[a], configs[#[trigger] steps[a].config_index as int], windows) by {
                assert(configs[p.0[a].config_index as int] == prev[p.0[a].config_index as int]);
            }
            assert forall|j: int| 0 <= j < configs.len() && #[trigger] kind_of_slot_type(configs[j].slot_type@) is Some
                implies exists|a: int| 0 <= a < steps.len() && #[trigger] steps[a].config_index == j by {
                assert(j < n);
                assert(configs[j] == prev[j]);
                assert(kind_of_slot_type(prev[j].slot_type@) is Some);
                let a = choose|a: int| 0 <= a < p.0.len() && #[trigger] p.0[a].config_index == j;
                assert(steps[a] == p.0[a]);
            }
        }
    }
}

/// Each step follows its configured slot: a slot of a known type gets
/// exactly one step, in configuration order, and a slot of an unknown type
/// none; a slot that keeps a block's state keeps one with the same id, of
/// the same kind (and, for a model or cabinet, the same file); a fresh
/// block has the kind the slot type names.
pub proof fn law_steps_follow_configs(old: Seq<BlockSummary>, configs: Seq<ConfigSummary>, windows: bool)
    requires
        old.len() <= usize::MAX,
        configs.len() <= usize::MAX,
    ensures
        ({
            let steps = plan_steps(old, configs, windows).0;
            &&& forall|a: int| 0 <= a < steps.len() ==> #[trigger] steps[a].config_index < configs.len()
            &&& forall|a: int, b: int| 0 <= a < b < steps.len()
                ==> #[trigger] steps[a].config_index < #[trigger] steps[b].config_index
            &&& forall|a: int| 0 <= a < steps.len()
                ==> step_fits(old, steps[a], configs[#[trigger] steps[a].config_index as int], windows)
            &&& forall|j: int| 0 <= j < configs.len() && #[trigger] kind_of_slot_type(configs[j].slot_type@) is Some
                ==> exists|a: int| 0 <= a < steps.len() && #[trigger] steps[a].config_index == j
        }),
{
    lemma_plan_steps_shape(old, configs, windows);
    lemma_steps_follow_configs(old, configs, windows);
}


/// The configuration lists the rack's blocks as they are: same ids, slot
/// types and files, in the same order, with kinds that the slot types name.
pub open spec fn describes_rack(old: Seq<BlockSummary>, configs: Seq<ConfigSummary>, windows: bool) -> bool {
    &&& old.len() == configs.len()
    &&& forall|i: int| 0 <= i < old.len() ==> {
        &&& #[trigger] configs[i].id@ == old[i].id@
        &&& configs[i].slot_type@ == old[i].slot_type@
        &&& same_source(old[i].source, configs[i].path, windows)
        &&& kind_of_slot_type(old[i].slot_type@) == Some(old[i].kind)
    }
}

/// No two blocks share an id.
pub open spec fn ids_distinct(old: Seq<BlockSummary>) -> bool {
    forall|i: int, j: int| 0 <= i < j < old.len() ==> #[trigger] old[i].id@ != #[trigger] old[j].id@
}

proof fn lemma_last_with_distinct_id(old: Seq<BlockSummary>, i: int)
    requires
        ids_distinct(old),
        0 <= i < old.len(),
    ensures
        last_with_id(old, old[i].id@) == Some(i),
{
    lemma_last_with_id(old, old[i].id@);
    let r = last_with_id(old, old[i].id@);
    if r is Some {
        let j = r->0;
        if j < i {
            assert(old[i].id@ != old[i].id@);
        } else if j > i {
            assert(old[i].id@ != old[j].id@);
        }
    }
}

proof fn lemma_space_keeps_state(t: Seq<char>)
    requires
        is_space_slot_type(t),
    ensures
        kind_of_slot_type(t) is Some,
        keeps_state(kind_of_slot_type(t)->0),
{
    reveal_strlit("pitch");
    reveal_strlit("amp");
    reveal_strlit("cab");
    reveal_strlit("delay");
    reveal_strlit("shimmer");
    reveal_strlit("verb");
    assert("pitch"@[0] == 'p');
    assert("amp"@.len() == 3);
    assert("cab"@.len() == 3);
    if t == "delay"@ {
        assert(t[0] == 'd');
        assert(t != "pitch"@);
        assert(t != "amp"@);
        assert(t != "cab"@);
    } else if t == "verb"@ {
        assert(t.len() == 4);
        assert(t != "pitch"@);
        assert(t != "amp"@);
        assert(t != "cab"@);
        assert(t != "delay"@);
    } else {
        assert(t == "shimmer"@);
        assert(t.len() == 7);
        assert(t != "pitch"@);
        assert(t != "amp"@);
        assert(t != "cab"@);
        assert(t != "delay"@);
    }
}

proof fn lemma_unchanged_prefix(old: Seq<BlockSummary>, configs: Seq<ConfigSummary>, n: int, windows: bool)
    requires
        describes_rack(old, configs, windows),
        ids_distinct(old),
        old.len() <= usize::MAX,
        0 <= n <= configs.len(),
    ensures
        ({
            let p = plan_steps(old, configs.take(n), windows);
            &&& p.0.len() == n
            &&& forall|j: int| 0 <= j < n ==> {
                &&& (#[trigger] p.0[j]).config_index == j
                &&& keeps_state(old[j].kind) ==> p.0[j].action == (SlotAction::Reuse {
                    old_index: j as usize,
                    renormalize: old[j].kind == EffectKind::Cab && old[j].normalize != configs[j].normalize,
                })
                &&& !keeps_state(old[j].kind) ==> p.0[j].action == (SlotAction::Create { kind: old[j].kind })
            }
            &&& forall|i: int| p.1.contains(i) <==> 0 <= i < n && keeps_state(old[i].kind)
        }),
    decreases n,
{
    if n > 0 {
        lemma_unchanged_prefix(old, configs, n - 1, windows);
        assert(configs.take(n).drop_last() =~= configs.take(n - 1));
        let j = n - 1;
        assert(configs.take(n).last() == configs[j]);
        assert(configs[j].id@ == old[j].id@);
        lemma_last_with_distinct_id(old, j);
        let p = plan_steps(old, configs.take(n - 1), windows);
        let q = plan_steps(old, configs.take(n), windows);
        if keeps_state(old[j].kind) {
            assert(!p.1.contains(j));
        }
        assert forall|k: int| 0 <= k < n implies {
            &&& (#[trigger] q.0[k]).config_index == k
            &&& keeps_state(old[k].kind) ==> q.0[k].action == (SlotAction::Reuse {
                old_index: k as usize,
                renormalize: old[k].kind == EffectKind::Cab && old[k].normalize != configs[k].normalize,
            })
            &&& !keeps_state(old[k].kind) ==> q.0[k].action == (SlotAction::Create { kind: old[k].kind })
        } by {
            if k < j {
                assert(q.0[k] == p.0[k]);
            }
        }
    }
}

/// Reconfiguring the rack with the slots it already holds keeps the state
/// of every NAM model, cabinet, delay and reverb block, starts the other
/// slots afresh, and lets no tail ring out.
pub proof fn law_unchanged_configuration_keeps_state(old: Seq<BlockSummary>, configs: Seq<ConfigSummary>, windows: bool)
    requires
        describes_rack(old, configs, windows),
        ids_distinct(old),
        old.len() <= usize::MAX,
    ensures
        ({
            let steps = plan_steps(old, configs, windows).0;
            &&& steps.len() == configs.len()
            &&& forall|j: int| 0 <= j < steps.len() ==> {
                &&& (#[trigger] steps[j]).config_index == j
                &&& keeps_state(old[j].kind) ==> reused_index(steps[j]) == Some(j)
                &&& !keeps_state(old[j].kind) ==> steps[j].action == (SlotAction::Create { kind: old[j].kind })
            }
            &&& fading_indices(old, plan_steps(old, configs, windows).1, old.len() as int).len() == 0
        }),
{
    lemma_unchanged_prefix(old, configs, configs.len() as int, windows);
    assert(configs.take(configs.len() as int) =~= configs);
    let taken = plan_steps(old, configs, windows).1;
    lemma_fading_shape(old, taken, old.len() as int);
    let f = fading_indices(old, taken, old.len() as int);
    if f.len() > 0 {
        let i = f[0] as int;
        assert(fades_out(old, taken, i));
        lemma_space_keeps_state(old[i].slot_type@);
        assert(configs[i].id@ == old[i].id@);
        assert(keeps_state(old[i].kind));
        assert(taken.contains(i));
    }
}

/// A slot type whose slot takes over the rack block with its id: `amp`,
/// `cab`, `delay`, `shimmer` and `verb`.
pub open spec fn takes_over_by_id(t: Seq<char>) -> bool {
    t == "amp"@ || t == "cab"@ || t == "delay"@ || t == "shimmer"@ || t == "verb"@
}

proof fn lemma_fading_contains(old: Seq<BlockSummary>, taken: Set<int>, n: int, i: int)
    requires
        0 <= i < n <= old.len(),
        old.len() <= usize::MAX,
        fades_out(old, taken, i),
    ensures
        fading_indices(old, taken, n).contains(i as usize),
    decreases n,
{
    let f = fading_indices(old, taken, n);
    if i == n - 1 {
        assert(f[f.len() - 1] == i as usize);
    } else {
        lemma_fading_contains(old, taken, n - 1, i);
        let prev = fading_indices(old, taken, n - 1);
        let k = choose|k: int| 0 <= k < prev.len() && prev[k] == i as usize;
        assert(f[k] == prev[k]);
    }
}

proof fn lemma_taken_has_slot(old: Seq<BlockSummary>, configs: Seq<ConfigSummary>, windows: bool, x: int)
    requires
        plan_steps(old, configs, windows).1.contains(x),
    ensures
        exists|j: int| 0 <= j < configs.len() && (#[trigger] configs[j]).id@ == old[x].id@
            && takes_over_by_id(configs[j].slot_type@),
    decreases configs.len(),
{
    if configs.len() > 0 {
        let prev = configs.drop_last();
        let p = plan_steps(old, prev, windows);
        let c = configs.last();
        let n = configs.len() - 1;
        if p.1.contains(x) {
            lemma_taken_has_slot(old, prev, windows, x);
            let j = choose|j: int| 0 <= j < prev.len() && (#[trigger] prev[j]).id@ == old[x].id@
                && takes_over_by_id(prev[j].slot_type@);
            assert(configs[j] == prev[j]);
        } else {
            lemma_last_with_id(old, c.id@);
            assert(configs[n] == c);
            assert(old[x].id@ == c.id@);
            assert(takes_over_by_id(c.slot_type@));
        }
    }
}

/// Every removed delay or reverb that lets its tail out rings out: a rack
/// block that its id finds, whose type is `delay`, `verb` or `shimmer`,
/// that is set to let its tail out, and whose id no `amp`, `cab`, `delay`,
/// `shimmer` or `verb` slot of the new configuration carries, is on the
/// list of blocks that ring out.
pub proof fn law_removed_tails_ring_out(old: Seq<BlockSummary>, configs: Seq<ConfigSummary>, windows: bool)
    requires
        old.len() <= usize::MAX,
    ensures
        forall|i: int| 0 <= i < old.len()
            && last_with_id(old, old[i].id@) == Some(i)
            && (old[i].slot_type@ == "delay"@ || old[i].slot_type@ == "verb"@ || old[i].slot_type@ == "shimmer"@)
            && old[i].tail_out
            && (forall|j: int| 0 <= j < configs.len() && (#[trigger] configs[j]).id@ == old[i].id@
                ==> !takes_over_by_id(configs[j].slot_type@))
            ==> fading_indices(old, plan_steps(old, configs, windows).1, old.len() as int).contains(#[trigger] (i as usize)),
{
    let taken = plan_steps(old, configs, windows).1;
    assert forall|i: int| 0 <= i < old.len()
        && last_with_id(old, old[i].id@) == Some(i)
        && (old[i].slot_type@ == "delay"@ || old[i].slot_type@ == "verb"@ || old[i].slot_type@ == "shimmer"@)
        && old[i].tail_out
        && (forall|j: int| 0 <= j < configs.len() && (#[trigger] configs[j]).id@ == old[i].id@
            ==> !takes_over_by_id(configs[j].slot_type@))
        implies fading_indices(old, taken, old.len() as int).contains(#[trigger] (i as usize)) by {
        if taken.contains(i) {
            lemma_taken_has_slot(old, configs, windows, i);
        }
        lemma_fading_contains(old, taken, old.len() as int, i);
    }
}

} // verus!
