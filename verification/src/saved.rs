//! The rack as the editor saves it: a JSON array of slot objects.  Reading
//! the saved text, the fields of a slot that are not sample parameters (from
//! the slot's members as plain values), and writing a list back as text.
//! Pan and the float parameters of a slot are read by the host.

use vstd::prelude::*;
use vstd::string::*;
use crate::registry::{json_list, parse_json_list};
use crate::dsp::{kind_of_slot_type, restored_kind, restored_kind_of, EffectKind};

verus! {

/// The JSON text serde_json writes for a list of values, or `None` when it
/// reports an error.
pub uninterp spec fn json_list_text(values: Seq<serde_json::Value>) -> Option<Seq<char>>;

/// Calls `serde_json::to_string` on a list of values.  Claimed: on success
/// the text is `json_list_text(values)`, and it fails exactly when that is
/// `None`; which text a list gives is left to serde_json.
#[verifier::external_body]
fn list_to_text(values: &Vec<serde_json::Value>) -> (r: Result<String, serde_json::Error>)
    ensures
        match r {
            Ok(t) => json_list_text(values@) == Some(t@),
            Err(_) => json_list_text(values@) is None,
        },
{
    serde_json::to_string(values)
}

/// Reads the saved rack: the slot objects of a JSON array, or none when the
/// text is not one.
pub fn parse_saved_slots(json: &str) -> (r: Vec<serde_json::Value>)
    ensures
        match json_list(json@) {
            Some(v) => r@ == v,
            None => r@.len() == 0,
        },
{
    match parse_json_list(json) {
        Ok(v) => v,
        Err(_) => Vec::new(),
    }
}

/// A member of a saved slot object, as far as the slot's fields read it:
/// a string, a boolean, or any other JSON value.
pub enum MemberValue {
    Text(String),
    Flag(bool),
    Other,
}

/// A saved slot object as its members, in order, each key with its value
/// (a saved slot that is not a JSON object has no members).
pub struct SavedSlot {
    pub members: Vec<(String, MemberValue)>,
}

/// The value of the first member named `key`, if there is one.
pub open spec fn member_value(members: Seq<(String, MemberValue)>, key: Seq<char>) -> Option<MemberValue>
    decreases members.len(),
{
    if members.len() == 0 {
        None
    } else if members[0].0@ == key {
        Some(members[0].1)
    } else {
        member_value(members.drop_first(), key)
    }
}

/// The text of the member `key` when it is a string.
pub open spec fn member_text(members: Seq<(String, MemberValue)>, key: Seq<char>) -> Option<Seq<char>> {
    match member_value(members, key) {
        Some(MemberValue::Text(t)) => Some(t@),
        _ => None,
    }
}

/// The truth value of the member `key` when it is a boolean.
pub open spec fn member_flag(members: Seq<(String, MemberValue)>, key: Seq<char>) -> Option<bool> {
    match member_value(members, key) {
        Some(MemberValue::Flag(b)) => Some(b),
        _ => None,
    }
}

/// The value of the first member named `key` (see `member_value`).
pub fn find_member<'a>(members: &'a Vec<(String, MemberValue)>, key: &str) -> (r: Option<&'a MemberValue>)
    ensures
        match r {
            Some(v) => member_value(members@, key@) == Some(*v),
            None => member_value(members@, key@) is None,
        },
{
    let n: usize = members.len();
    let mut i: usize = 0;
    assert(members@.skip(0) =~= members@);
    while i < n
        invariant
            n == members@.len(),
            i <= n,
            member_value(members@, key@) == member_value(members@.skip(i as int), key@),
        decreases n - i,
    {
        proof {
            assert(members@.skip(i as int)[0] == members@[i as int]);
            assert(members@.skip(i as int).drop_first() =~= members@.skip(i + 1));
        }
        if crate::text::text_eq(members[i].0.as_str(), key) {
            return Some(&members[i].1);
        }
        i = i + 1;
    }
    None
}

/// `t`, or `default` when there is none.
pub open spec fn text_or(t: Option<Seq<char>>, default: Seq<char>) -> Seq<char> {
    match t {
        Some(x) => x,
        None => default,
    }
}

/// The fields of a saved slot that are not sample parameters.
pub struct SlotFields {
    pub id: String,
    pub slot_type: String,
    pub name: String,
    /// The slot's file, as the text of its path.
    pub path: Option<String>,
    pub bypassed: bool,
    pub lane: String,
}

fn member_string(members: &Vec<(String, MemberValue)>, key: &str) -> (r: Option<String>)
    ensures
        match r {
            Some(s) => member_text(members@, key@) == Some(s@),
            None => member_text(members@, key@) is None,
        },
{
    match find_member(members, key) {
        Some(MemberValue::Text(t)) => Some(String::from_str(t.as_str())),
        _ => None,
    }
}

fn member_string_or(members: &Vec<(String, MemberValue)>, key: &str, default: &str) -> (r: String)
    ensures
        r@ == text_or(member_text(members@, key@), default@),
{
    match member_string(members, key) {
        Some(s) => s,
        None => String::from_str(default),
    }
}

/// Reads the fields of a saved slot: `id`, `type` and `name` as text (empty
/// when missing or not a string), `path` when it is a string, `bypassed`
/// when it is a boolean (false otherwise), and `lane` (`serial` when
/// missing or not a string).
pub fn slot_fields(slot: &SavedSlot) -> (r: SlotFields)
    ensures
        r.id@ == text_or(member_text(slot.members@, "id"@), ""@),
        r.slot_type@ == text_or(member_text(slot.members@, "type"@), ""@),
        r.name@ == text_or(member_text(slot.members@, "name"@), ""@),
        match r.path {
            Some(p) => member_text(slot.members@, "path"@) == Some(p@),
            None => member_text(slot.members@, "path"@) is None,
        },
        r.bypassed == match member_flag(slot.members@, "bypassed"@) {
            Some(b) => b,
            None => false,
        },
        r.lane@ == text_or(member_text(slot.members@, "lane"@), "serial"@),
{
    let m: &Vec<(String, MemberValue)> = &slot.members;
    let bypassed: bool = match find_member(m, "bypassed") {
        Some(MemberValue::Flag(b)) => *b,
        _ => false,
    };
    SlotFields {
        id: member_string_or(m, "id", ""),
        slot_type: member_string_or(m, "type", ""),
        name: member_string_or(m, "name", ""),
        path: member_string(m, "path"),
        bypassed,
        lane: member_string_or(m, "lane", "serial"),
    }
}

/// The saved slots that come back as blocks, in order: each one's index
/// and the kind of block it becomes (see `restored_kind_of`).
pub open spec fn restore_plan_of(slot_types: Seq<String>, with_pitch: bool) -> Seq<(usize, EffectKind)>
    decreases slot_types.len(),
{
    if slot_types.len() == 0 {
        seq![]
    } else {
        let prev = restore_plan_of(slot_types.drop_last(), with_pitch);
        match restored_kind_of(slot_types.last()@, with_pitch) {
            Some(k) => prev.push(((slot_types.len() - 1) as usize, k)),
            None => prev,
        }
    }
}

/// Plans which saved slots come back as blocks (see `restore_plan_of`).
pub fn restore_plan(slot_types: &Vec<String>, with_pitch: bool) -> (r: Vec<(usize, EffectKind)>)
    ensures
        r@ == restore_plan_of(slot_types@, with_pitch),
{
    let mut r: Vec<(usize, EffectKind)> = Vec::new();
    let n: usize = slot_types.len();
    let mut i: usize = 0;
    assert(slot_types@.take(0) =~= Seq::<String>::empty());
    while i < n
        invariant
            n == slot_types@.len(),
            i <= n,
            r@ == restore_plan_of(slot_types@.take(i as int), with_pitch),
        decreases n - i,
    {
        proof {
            assert(slot_types@.take(i + 1).drop_last() =~= slot_types@.take(i as int));
            assert(slot_types@.take(i + 1).last() == slot_types@[i as int]);
        }
        match restored_kind(slot_types[i].as_str(), with_pitch) {
            Some(k) => r.push((i, k)),
            None => {},
        }
        i = i + 1;
    }
    assert(slot_types@.take(n as int) =~= slot_types@);
    r
}

/// Restoring brings back every saved slot whose type names an effect
/// (pitch only when asked for) as that effect, each once, in the order of
/// the saved rack, and nothing else.
pub proof fn law_restore_plan_brings_back_known_slots(slot_types: Seq<String>, with_pitch: bool)
    requires
        slot_types.len() <= usize::MAX,
    ensures
        ({
            let plan = restore_plan_of(slot_types, with_pitch);
            &&& forall|i: int| 0 <= i < slot_types.len() && #[trigger] kind_of_slot_type(slot_types[i]@) is Some
                && (kind_of_slot_type(slot_types[i]@) != Some(EffectKind::Pitch) || with_pitch)
                ==> exists|a: int| 0 <= a < plan.len() && plan[a] == (i as usize, kind_of_slot_type(slot_types[i]@)->0)
            &&& forall|a: int| 0 <= a < plan.len() ==> {
                &&& (#[trigger] plan[a]).0 < slot_types.len()
                &&& kind_of_slot_type(slot_types[plan[a].0 as int]@) == Some(plan[a].1)
            }
            &&& forall|a: int, b: int| 0 <= a < b < plan.len() ==> (#[trigger] plan[a]).0 < (#[trigger] plan[b]).0
        }),
    decreases slot_types.len(),
{
    if slot_types.len() > 0 {
        let prev = slot_types.drop_last();
        law_restore_plan_brings_back_known_slots(prev, with_pitch);
        let p = restore_plan_of(prev, with_pitch);
        let plan = restore_plan_of(slot_types, with_pitch);
        let n = slot_types.len() - 1;
        assert forall|i: int| 0 <= i < n implies #[trigger] slot_types[i] == prev[i] by {}
        assert forall|i: int| 0 <= i < slot_types.len() && #[trigger] kind_of_slot_type(slot_types[i]@) is Some
            && (kind_of_slot_type(slot_types[i]@) != Some(EffectKind::Pitch) || with_pitch)
            implies exists|a: int| 0 <= a < plan.len() && plan[a] == (i as usize, kind_of_slot_type(slot_types[i]@)->0) by {
            if i < n {
                assert(slot_types[i] == prev[i]);
                assert(kind_of_slot_type(prev[i]@) is Some);
                let a = choose|a: int| 0 <= a < p.len() && p[a] == (i as usize, kind_of_slot_type(prev[i]@)->0);
                assert(plan[a] == p[a]);
            } else {
                assert(plan[p.len() as int] == (i as usize, kind_of_slot_type(slot_types[i]@)->0));
            }
        }
        assert forall|a: int| 0 <= a < plan.len() implies {
            &&& (#[trigger] plan[a]).0 < slot_types.len()
            &&& kind_of_slot_type(slot_types[plan[a].0 as int]@) == Some(plan[a].1)
        } by {
            if a < p.len() {
                assert(plan[a] == p[a]);
                assert(slot_types[p[a].0 as int] == prev[p[a].0 as int]);
            }
        }
        assert forall|a: int, b: int| 0 <= a < b < plan.len() implies (#[trigger] plan[a]).0 < (#[trigger] plan[b]).0 by {
            assert(plan[a] == p[a]);
            if b < p.len() {
                assert(plan[b] == p[b]);
            }
        }
    }
}

/// The text the saved rack is kept as: the JSON text of its slots, or
/// `None` when serde_json cannot write them (the saved text then stays as
/// it was).
pub fn saved_slots_text(slots: &Vec<serde_json::Value>) -> (r: Option<String>)
    ensures
        match r {
            Some(t) => json_list_text(slots@) == Some(t@),
            None => json_list_text(slots@) is None,
        },
{
    match list_to_text(slots) {
        Ok(t) => Some(t),
        Err(_) => None,
    }
}

/// The text a list (such as the saved snapshots) is kept as: its JSON
/// text, or the empty text when serde_json cannot write it.
pub fn list_text_or_empty(snapshots: &Vec<serde_json::Value>) -> (r: String)
    ensures
        r@ == text_or(json_list_text(snapshots@), ""@),
{
    match list_to_text(snapshots) {
        Ok(t) => t,
        Err(_) => String::from_str(""),
    }
}

} // verus!
