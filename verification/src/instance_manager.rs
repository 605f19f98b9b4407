//! A registry of chart instances keyed by 128-bit identifiers, so that
//! callers address charts by id instead of holding them.
use vstd::prelude::*;
use std::collections::HashMap;

verus! {

broadcast use vstd::std_specs::hash::group_hash_axioms;

/// Draws a random (version 4) identifier (`uuid::Uuid::new_v4`, as its 128-bit
/// value). Claimed: only the version and variant bits that `new_v4` sets (the
/// version nibble 4, the variant bits 10); the other bits are random.
#[verifier::external_body]
fn random_instance_id() -> (r: u128)
    ensures
        r & 0xF000_C000_0000_0000_0000u128 == 0x4000_8000_0000_0000_0000u128,
{
    uuid::Uuid::new_v4().as_u128()
}

/// The data a chart preset needs.
#[derive(Debug, Clone)]
pub struct PresetDataRequirements {
    /// The columns needed, by data type.
    pub columns_by_type: HashMap<String, std::collections::HashSet<String>>,
    /// Whether each metric is shown, by metric id.
    pub visibility_states: HashMap<String, bool>,
    /// The data type and column of each metric, by metric id.
    pub metric_mappings: HashMap<String, (String, String)>,
}

/// Chart instances by identifier.
pub struct InstanceManager<I> {
    instances: HashMap<u128, I>,
}

impl<I> InstanceManager<I> {
    /// The registered instances.
    pub closed spec fn instances(&self) -> Map<u128, I> {
        self.instances@
    }

    /// An empty registry.
    pub fn new() -> (r: InstanceManager<I>)
        ensures
            r.instances() == Map::<u128, I>::empty(),
            r.instances().dom().finite(),
    {
        InstanceManager { instances: HashMap::new() }
    }

    /// Registers `instance` under a random version-4 identifier and returns it
    /// (an instance already under that identifier would be replaced).
    pub fn create_instance(&mut self, instance: I) -> (id: u128)
        ensures
            final(self).instances() == old(self).instances().insert(id, instance),
            final(self).instances().dom().finite(),
            id & 0xF000_C000_0000_0000_0000u128 == 0x4000_8000_0000_0000_0000u128,
    {
        let id = random_instance_id();
        self.instances.insert(id, instance);
        id
    }

    /// Applies `f` to the instance registered under `id`, if there is one.
    pub fn with_instance<F: FnOnce(&I) -> R, R>(&self, id: u128, f: F) -> (r: Option<R>)
        requires
            forall|x: &I| #[trigger] f.requires((x,)),
        ensures
            r is Some <==> self.instances().contains_key(id),
            r matches Some(v) ==> f.ensures((&self.instances()[id],), v),
    {
        match self.instances.get(&id) {
            Some(instance) => Some(f(instance)),
            None => None,
        }
    }

    /// Is an instance registered under `id`?
    pub fn instance_exists(&self, id: u128) -> (r: bool)
        ensures
            r == self.instances().contains_key(id),
            self.instances().dom().finite(),
    {
        self.instances.contains_key(&id)
    }

    /// Unregisters the instance under `id` and hands it back.
    pub fn remove_instance(&mut self, id: u128) -> (r: Option<I>)
        ensures
            final(self).instances() == old(self).instances().remove(id),
            final(self).instances().dom().finite(),
            r is Some <==> old(self).instances().contains_key(id),
            r matches Some(v) ==> v == old(self).instances()[id],
    {
        self.instances.remove(&id)
    }

    /// The number of registered instances.
    pub fn instance_count(&self) -> (r: usize)
        ensures
            r == self.instances().len(),
            self.instances().dom().finite(),
    {
        self.instances.len()
    }

    /// Unregisters every instance.
    pub fn clear_all(&mut self)
        ensures
            final(self).instances() == Map::<u128, I>::empty(),
            final(self).instances().dom().finite(),
    {
        self.instances.clear();
    }

    /// Takes the instance under `id` out of the registry for a while; hand it
    /// back with `put_instance`.
    pub fn take_instance(&mut self, id: u128) -> (r: Option<I>)
        ensures
            final(self).instances() == old(self).instances().remove(id),
            final(self).instances().dom().finite(),
            r is Some <==> old(self).instances().contains_key(id),
            r matches Some(v) ==> v == old(self).instances()[id],
    {
        self.instances.remove(&id)
    }

    /// Registers `instance` under `id`, replacing any instance there.
    pub fn put_instance(&mut self, id: u128, instance: I)
        ensures
            final(self).instances() == old(self).instances().insert(id, instance),
            final(self).instances().dom().finite(),
    {
        self.instances.insert(id, instance);
    }
}

/// Taking an instance out and putting it back leaves the registry as it was.
pub proof fn law_take_put_roundtrip<I>(m: Map<u128, I>, id: u128)
    requires
        m.contains_key(id),
    ensures
        m.remove(id).insert(id, m[id]) == m,
{
    assert(m.remove(id).insert(id, m[id]) =~= m);
}

/// Putting an instance under an unused id raises the count by one, and taking
/// it out again lowers the count back; a lookup changes nothing.
pub proof fn law_put_take_count<I>(m: Map<u128, I>, id: u128, inst: I)
    requires
        m.dom().finite(),
        !m.contains_key(id),
    ensures
        m.insert(id, inst).dom().finite(),
        m.insert(id, inst).len() == m.len() + 1,
        m.insert(id, inst).contains_key(id),
        m.insert(id, inst).remove(id).len() == m.len(),
        !m.insert(id, inst).remove(id).contains_key(id),
{
    assert(m.insert(id, inst).remove(id) =~= m);
}

} // verus!
