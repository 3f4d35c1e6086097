//! The registry of plugin instances: it hands out instance ids and keeps
//! each instance's shared data under its id.  Also the reading of the saved
//! snapshot and macro-mapping lists that instances share at run time.

use vstd::prelude::*;
use std::collections::HashMap;

verus! {

broadcast use vstd::std_specs::hash::group_hash_axioms;

#[verifier::external_type_specification]
#[verifier::external_body]
pub struct ExJsonValue(serde_json::Value);

#[verifier::external_type_specification]
#[verifier::external_body]
pub struct ExJsonError(serde_json::Error);

/// Snapshots as the editor saved them, one JSON value each.
pub type RtSnapshotInfo = Vec<serde_json::Value>;

/// Macro mappings as the editor saved them, one JSON value each.
pub type RtMacroMappings = Vec<serde_json::Value>;

/// The items of `text` read as a JSON array by serde_json, or `None` when
/// `text` is not a JSON array.
pub uninterp spec fn json_list(text: Seq<char>) -> Option<Seq<serde_json::Value>>;

/// Calls `serde_json::from_str::<Vec<serde_json::Value>>`.  Claimed: on
/// success the items are `json_list(text)`, and it fails exactly when
/// `json_list(text)` is `None`; what JSON text parses to which values is
/// left to serde_json.
#[verifier::external_body]
pub(crate) fn parse_json_list(text: &str) -> (r: Result<Vec<serde_json::Value>, serde_json::Error>)
    ensures
        match r {
            Ok(v) => json_list(text@) == Some(v@),
            Err(_) => json_list(text@) is None,
        },
{
    serde_json::from_str(text)
}

/// Reads saved snapshots: the items of a JSON array, or none when the text
/// is not one.
pub fn parse_snapshots(json: &str) -> (r: RtSnapshotInfo)
    ensures
        match json_list(json@) {
            Some(v) => r@ == v,
            None => r@.len() == 0,
        },
{
    match parse_json_list(json) {
        Ok(v) => v,
        Err(_) => Vec::new(),
    }
}

/// Reads saved macro mappings: the items of a JSON array, or none when the
/// text is not one.
pub fn parse_macro_mappings(json: &str) -> (r: RtMacroMappings)
    ensures
        match json_list(json@) {
            Some(v) => r@ == v,
            None => r@.len() == 0,
        },
{
    match parse_json_list(json) {
        Ok(v) => v,
        Err(_) => Vec::new(),
    }
}

/// Instances by id, and the id the next instance gets.  Every registered
/// id was handed out before: it is below the next id.
pub struct InstanceRegistry<T> {
    instances: HashMap<usize, T>,
    next_id: usize,
}

/// Every id in `instances` is below `next_id`.
pub open spec fn registered_below<T>(instances: Map<usize, T>, next_id: usize) -> bool {
    forall|k: usize| #[trigger] instances.contains_key(k) ==> k < next_id
}

impl<T> InstanceRegistry<T> {
    /// The registered instances, by id.
    pub closed spec fn spec_instances(&self) -> Map<usize, T> {
        self.instances@
    }

    /// The id the next instance will get.
    pub closed spec fn spec_next_id(&self) -> usize {
        self.next_id
    }

    /// Registered ids were handed out before.
    #[verifier::type_invariant]
    spec fn ids_handed_out(&self) -> bool {
        registered_below(self.instances@, self.next_id)
    }

    /// An empty registry whose first id is 0.
    pub fn new() -> (r: Self)
        ensures
            r.spec_instances() == Map::<usize, T>::empty(),
            r.spec_next_id() == 0,
    {
        Self { instances: HashMap::new(), next_id: 0 }
    }

    /// The id the next instance will get.
    pub fn next_id(&self) -> (r: usize)
        ensures
            r == self.spec_next_id(),
    {
        self.next_id
    }

    /// Records `data` as the shared data of instance `id`, an id already
    /// handed out, replacing any earlier record for it.
    pub fn register(&mut self, id: usize, data: T)
        requires
            id < old(self).spec_next_id(),
        ensures
            final(self).spec_instances() == old(self).spec_instances().insert(id, data),
            final(self).spec_next_id() == old(self).spec_next_id(),
            registered_below(final(self).spec_instances(), final(self).spec_next_id()),
    {
        proof { use_type_invariant(&*self); }
        let mut instances: HashMap<usize, T> = HashMap::new();
        std::mem::swap(&mut instances, &mut self.instances);
        instances.insert(id, data);
        self.instances = instances;
    }

    /// Forgets instance `id`.
    pub fn unregister(&mut self, id: usize)
        ensures
            final(self).spec_instances() == old(self).spec_instances().remove(id),
            final(self).spec_next_id() == old(self).spec_next_id(),
            registered_below(final(self).spec_instances(), final(self).spec_next_id()),
    {
        proof { use_type_invariant(&*self); }
        let mut instances: HashMap<usize, T> = HashMap::new();
        std::mem::swap(&mut instances, &mut self.instances);
        instances.remove(&id);
        self.instances = instances;
    }

    /// The shared data of instance `id`, if it is registered.
    pub fn get(&self, id: usize) -> (r: Option<&T>)
        ensures
            match r {
                Some(d) => self.spec_instances().contains_key(id) && *d == self.spec_instances()[id],
                None => !self.spec_instances().contains_key(id),
            },
    {
        self.instances.get(&id)
    }
}

/// Takes the next instance id from the registry: the ids handed out count
/// up from 0, and the id taken is not registered.
pub fn next_instance_id<T>(reg: &mut InstanceRegistry<T>) -> (id: usize)
    requires
        old(reg).spec_next_id() < usize::MAX,
    ensures
        id == old(reg).spec_next_id(),
        !old(reg).spec_instances().contains_key(id),
        final(reg).spec_next_id() == id + 1,
        final(reg).spec_instances() == old(reg).spec_instances(),
        registered_below(final(reg).spec_instances(), final(reg).spec_next_id()),
{
    proof { use_type_invariant(&*reg); }
    let id: usize = reg.next_id;
    reg.next_id = reg.next_id + 1;
    id
}

/// Ids taken one after another from a registry increase: after taking
/// `first`, the next id taken is larger.
pub proof fn law_instance_ids_increase<T>(
    before: InstanceRegistry<T>,
    first: usize,
    after: InstanceRegistry<T>,
    second: usize,
)
    requires
        first == before.spec_next_id(),
        after.spec_next_id() == first + 1,
        second == after.spec_next_id(),
    ensures
        first < second,
        second == first + 1,
{
}

/// Looking up an instance after registering it gives the data registered;
/// after unregistering it, nothing; other instances are unaffected.
pub proof fn law_lookup_after_register<T>(reg: Map<usize, T>, id: usize, data: T, other: usize)
    ensures
        reg.insert(id, data).contains_key(id),
        reg.insert(id, data)[id] == data,
        !reg.remove(id).contains_key(id),
        other != id ==> reg.insert(id, data).contains_key(other) == reg.contains_key(other),
        other != id && reg.contains_key(other) ==> reg.insert(id, data)[other] == reg[other],
        other != id ==> reg.remove(id).contains_key(other) == reg.contains_key(other),
{
}

/// Registering a fresh id and unregistering it again leaves the registry
/// as it was; an id taken from the registry is such a fresh id.
pub proof fn law_register_then_unregister_restores<T>(reg: Map<usize, T>, next_id: usize, id: usize, data: T)
    requires
        registered_below(reg, next_id),
        id == next_id,
    ensures
        !reg.contains_key(id),
        reg.insert(id, data).remove(id) == reg,
{
    assert(reg.insert(id, data).remove(id) =~= reg);
}

} // verus!
