//! The concurrent entity store: three independently keyed collections for
//! agents, houses and resources.
//!
//! Each collection is a `dashmap::DashMap`, a sharded concurrent hash map:
//! operations on different keys do not block each other, and operations on
//! the same key are linearizable, so a whole entity is always read or
//! replaced atomically and a reader can never observe a partially
//! constructed entity. Verus sees the maps only through the trusted
//! wrappers below, whose contracts speak of the abstract entry maps.
//!
//! Re-inserting an already present identifier overwrites the entry: it is
//! a documented replace, never a silent merge.

use vstd::prelude::*;

use crate::agents::{Agent, AgentId};
use crate::objects::{House, HouseId, Resource, ResourceId};

verus! {

#[verifier::external_type_specification]
#[verifier::external_body]
#[verifier::reject_recursive_types(K)]
#[verifier::reject_recursive_types(V)]
#[verifier::reject_recursive_types(S)]
pub struct ExDashMap<K, V, S>(dashmap::DashMap<K, V, S>);

/// The concurrent collection keyed by agent identifiers.
pub type AgentMap = dashmap::DashMap<AgentId, Agent>;

/// The concurrent collection keyed by house identifiers.
pub type HouseMap = dashmap::DashMap<HouseId, House>;

/// The concurrent collection keyed by resource identifiers.
pub type ResourceMap = dashmap::DashMap<ResourceId, Resource>;

/// The empty agent map.
pub open spec fn no_agent_entries() -> Map<AgentId, Agent> {
    Map::empty()
}

/// The empty house map.
pub open spec fn no_house_entries() -> Map<HouseId, House> {
    Map::empty()
}

/// The empty resource map.
pub open spec fn no_resource_entries() -> Map<ResourceId, Resource> {
    Map::empty()
}

/// The entries held by an agent collection.
pub uninterp spec fn agent_entries(m: AgentMap) -> Map<AgentId, Agent>;

/// The entries held by a house collection.
pub uninterp spec fn house_entries(m: HouseMap) -> Map<HouseId, House>;

/// The entries held by a resource collection.
pub uninterp spec fn resource_entries(m: ResourceMap) -> Map<ResourceId, Resource>;

/// Relies on dashmap::DashMap::new: a freshly created map holds nothing.
#[verifier::external_body]
fn agent_map_new() -> (m: AgentMap)
    ensures
        agent_entries(m) == no_agent_entries(),
{
    dashmap::DashMap::new()
}

/// Relies on dashmap::DashMap::insert: maps the key to the new value,
/// replacing and returning the previously mapped value, if any.
#[verifier::external_body]
fn agent_map_insert(m: &mut AgentMap, id: AgentId, agent: Agent) -> (prev:
    Option<Agent>)
    ensures
        agent_entries(*final(m)) == agent_entries(*old(m)).insert(id, agent),
        prev is Some <==> agent_entries(*old(m)).dom().contains(id),
        (prev is Some ==> prev->0 == agent_entries(*old(m))[id]),
{
    m.insert(id, agent)
}

/// Relies on dashmap::DashMap::get, and on the derived `Clone` of the
/// value type: hands out a copy of the value mapped to the key, if any.
#[verifier::external_body]
fn agent_map_get(m: &AgentMap, id: &AgentId) -> (r: Option<Agent>)
    ensures
        r is Some <==> agent_entries(*m).dom().contains(*id),
        (r is Some ==> r->0 == agent_entries(*m)[*id]),
{
    m.get(id).map(|entry| entry.value().clone())
}

/// Relies on dashmap::DashMap::remove: takes the entry for the key out of
/// the map and returns its value, if it was present.
#[verifier::external_body]
fn agent_map_remove(m: &mut AgentMap, id: &AgentId) -> (r: Option<Agent>)
    ensures
        agent_entries(*final(m)) == agent_entries(*old(m)).remove(*id),
        r is Some <==> agent_entries(*old(m)).dom().contains(*id),
        (r is Some ==> r->0 == agent_entries(*old(m))[*id]),
{
    m.remove(id).map(|(_, v)| v)
}

/// Relies on dashmap::DashMap::len: the number of entries in the map.
#[verifier::external_body]
fn agent_map_len(m: &AgentMap) -> (n: usize)
    ensures
        n == agent_entries(*m).dom().len(),
{
    m.len()
}

/// Relies on dashmap::DashMap::iter: visits every entry exactly once.
/// The order is the map's internal hash order; nothing is promised of it.
#[verifier::external_body]
fn agent_map_ids(m: &AgentMap) -> (ids: Vec<AgentId>)
    ensures
        ids@.no_duplicates(),
        forall|id: AgentId| #[trigger] ids@.contains(id) <==> agent_entries(*m).dom().contains(id),
{
    m.iter().map(|entry| *entry.key()).collect()
}

/// Relies on dashmap::DashMap::new: a freshly created map holds nothing.
#[verifier::external_body]
fn house_map_new() -> (m: HouseMap)
    ensures
        house_entries(m) == no_house_entries(),
{
    dashmap::DashMap::new()
}

/// Relies on dashmap::DashMap::insert: maps the key to the new value,
/// replacing and returning the previously mapped value, if any.
#[verifier::external_body]
fn house_map_insert(m: &mut HouseMap, id: HouseId, house: House) -> (prev:
    Option<House>)
    ensures
        house_entries(*final(m)) == house_entries(*old(m)).insert(id, house),
        prev is Some <==> house_entries(*old(m)).dom().contains(id),
        (prev is Some ==> prev->0 == house_entries(*old(m))[id]),
{
    m.insert(id, house)
}

/// Relies on dashmap::DashMap::get, and on the derived `Clone` of the
/// value type: hands out a copy of the value mapped to the key, if any.
#[verifier::external_body]
fn house_map_get(m: &HouseMap, id: &HouseId) -> (r: Option<House>)
    ensures
        r is Some <==> house_entries(*m).dom().contains(*id),
        (r is Some ==> r->0 == house_entries(*m)[*id]),
{
    m.get(id).map(|entry| entry.value().clone())
}

/// Relies on dashmap::DashMap::len: the number of entries in the map.
#[verifier::external_body]
fn house_map_len(m: &HouseMap) -> (n: usize)
    ensures
        n == house_entries(*m).dom().len(),
{
    m.len()
}

/// Relies on dashmap::DashMap::iter: visits every entry exactly once.
/// The order is the map's internal hash order; nothing is promised of it.
#[verifier::external_body]
fn house_map_ids(m: &HouseMap) -> (ids: Vec<HouseId>)
    ensures
        ids@.no_duplicates(),
        forall|id: HouseId| #[trigger] ids@.contains(id) <==> house_entries(*m).dom().contains(id),
{
    m.iter().map(|entry| *entry.key()).collect()
}

/// Relies on dashmap::DashMap::new: a freshly created map holds nothing.
#[verifier::external_body]
fn resource_map_new() -> (m: ResourceMap)
    ensures
        resource_entries(m) == no_resource_entries(),
{
    dashmap::DashMap::new()
}

/// Relies on dashmap::DashMap::insert: maps the key to the new value,
/// replacing and returning the previously mapped value, if any.
#[verifier::external_body]
fn resource_map_insert(
    m: &mut ResourceMap,
    id: ResourceId,
    resource: Resource,
) -> (prev: Option<Resource>)
    ensures
        resource_entries(*final(m)) == resource_entries(*old(m)).insert(id, resource),
        prev is Some <==> resource_entries(*old(m)).dom().contains(id),
        (prev is Some ==> prev->0 == resource_entries(*old(m))[id]),
{
    m.insert(id, resource)
}

/// Relies on dashmap::DashMap::get, and on the derived `Clone` of the
/// value type: hands out a copy of the value mapped to the key, if any.
#[verifier::external_body]
fn resource_map_get(m: &ResourceMap, id: &ResourceId) -> (r: Option<
    Resource,
>)
    ensures
        r is Some <==> resource_entries(*m).dom().contains(*id),
        (r is Some ==> r->0 == resource_entries(*m)[*id]),
{
    m.get(id).map(|entry| entry.value().clone())
}

/// Relies on dashmap::DashMap::remove: takes the entry for the key out of
/// the map and returns its value, if it was present.
#[verifier::external_body]
fn resource_map_remove(m: &mut ResourceMap, id: &ResourceId) -> (r:
    Option<Resource>)
    ensures
        resource_entries(*final(m)) == resource_entries(*old(m)).remove(*id),
        r is Some <==> resource_entries(*old(m)).dom().contains(*id),
        (r is Some ==> r->0 == resource_entries(*old(m))[*id]),
{
    m.remove(id).map(|(_, v)| v)
}

/// Relies on dashmap::DashMap::len: the number of entries in the map.
#[verifier::external_body]
fn resource_map_len(m: &ResourceMap) -> (n: usize)
    ensures
        n == resource_entries(*m).dom().len(),
{
    m.len()
}

/// Relies on dashmap::DashMap::iter: visits every entry exactly once.
/// The order is the map's internal hash order; nothing is promised of it.
#[verifier::external_body]
fn resource_map_ids(m: &ResourceMap) -> (ids: Vec<ResourceId>)
    ensures
        ids@.no_duplicates(),
        forall|id: ResourceId| #[trigger] ids@.contains(id) <==> resource_entries(
            *m,
        ).dom().contains(id),
{
    m.iter().map(|entry| *entry.key()).collect()
}

/// Three independently keyed concurrent collections, one per entity kind.
pub struct EntityStore {
    agents: AgentMap,
    houses: HouseMap,
    resources: ResourceMap,
}

impl EntityStore {
    /// The agent entries, as an abstract map.
    pub closed spec fn agents(self) -> Map<AgentId, Agent> {
        agent_entries(self.agents)
    }

    /// The house entries, as an abstract map.
    pub closed spec fn houses(self) -> Map<HouseId, House> {
        house_entries(self.houses)
    }

    /// The resource entries, as an abstract map.
    pub closed spec fn resources(self) -> Map<ResourceId, Resource> {
        resource_entries(self.resources)
    }

    /// Every collection holds finitely many entries.
    pub open spec fn wf(self) -> bool {
        &&& self.agents().dom().finite()
        &&& self.houses().dom().finite()
        &&& self.resources().dom().finite()
    }

    /// An empty store.
    pub fn new() -> (s: EntityStore)
        ensures
            s.agents() == no_agent_entries(),
            s.houses() == no_house_entries(),
            s.resources() == no_resource_entries(),
            s.wf(),
    {
        EntityStore {
            agents: agent_map_new(),
            houses: house_map_new(),
            resources: resource_map_new(),
        }
    }

    /// Store `agent` under its own identifier, replacing any entry the
    /// identifier already had.
    pub fn insert_agent(&mut self, agent: Agent)
        requires
            old(self).wf(),
        ensures
            final(self).agents() == old(self).agents().insert(agent.id, agent),
            final(self).houses() == old(self).houses(),
            final(self).resources() == old(self).resources(),
            final(self).wf(),
    {
        agent_map_insert(&mut self.agents, agent.id, agent);
    }

    /// A copy of the agent stored under `id`, or `None` if there is none.
    pub fn get_agent(&self, id: &AgentId) -> (r: Option<Agent>)
        ensures
            r is Some <==> self.agents().dom().contains(*id),
            (r is Some ==> r->0 == self.agents()[*id]),
    {
        agent_map_get(&self.agents, id)
    }

    /// Take the agent stored under `id` out of the store and return it.
    pub fn remove_agent(&mut self, id: &AgentId) -> (r: Option<Agent>)
        requires
            old(self).wf(),
        ensures
            final(self).agents() == old(self).agents().remove(*id),
            final(self).houses() == old(self).houses(),
            final(self).resources() == old(self).resources(),
            r is Some <==> old(self).agents().dom().contains(*id),
            (r is Some ==> r->0 == old(self).agents()[*id]),
            final(self).wf(),
    {
        agent_map_remove(&mut self.agents, id)
    }

    /// How many agents the store holds.
    pub fn agent_count(&self) -> (n: usize)
        ensures
            n == self.agents().dom().len(),
    {
        agent_map_len(&self.agents)
    }

    /// The identifiers of all stored agents, each exactly once, in no
    /// promised order.
    pub fn agent_ids(&self) -> (ids: Vec<AgentId>)
        ensures
            ids@.no_duplicates(),
            forall|id: AgentId| #[trigger] ids@.contains(id) <==> self.agents().dom().contains(id),
    {
        agent_map_ids(&self.agents)
    }

    /// Store `house` under its own identifier, replacing any entry the
    /// identifier already had.
    pub fn insert_house(&mut self, house: House)
        requires
            old(self).wf(),
        ensures
            final(self).houses() == old(self).houses().insert(house.id, house),
            final(self).agents() == old(self).agents(),
            final(self).resources() == old(self).resources(),
            final(self).wf(),
    {
        house_map_insert(&mut self.houses, house.id, house);
    }

    /// A copy of the house stored under `id`, or `None` if there is none.
    pub fn get_house(&self, id: &HouseId) -> (r: Option<House>)
        ensures
            r is Some <==> self.houses().dom().contains(*id),
            (r is Some ==> r->0 == self.houses()[*id]),
    {
        house_map_get(&self.houses, id)
    }

    /// How many houses the store holds.
    pub fn house_count(&self) -> (n: usize)
        ensures
            n == self.houses().dom().len(),
    {
        house_map_len(&self.houses)
    }

    /// The identifiers of all stored houses, each exactly once, in no
    /// promised order.
    pub fn house_ids(&self) -> (ids: Vec<HouseId>)
        ensures
            ids@.no_duplicates(),
            forall|id: HouseId| #[trigger] ids@.contains(id) <==> self.houses().dom().contains(id),
    {
        house_map_ids(&self.houses)
    }

    /// Store `resource` under its own identifier, replacing any entry the
    /// identifier already had.
    pub fn insert_resource(&mut self, resource: Resource)
        requires
            old(self).wf(),
        ensures
            final(self).resources() == old(self).resources().insert(
                resource.spec_id(),
                resource,
            ),
            final(self).agents() == old(self).agents(),
            final(self).houses() == old(self).houses(),
            final(self).wf(),
    {
        let id = *resource.get_id();
        resource_map_insert(&mut self.resources, id, resource);
    }

    /// A copy of the resource stored under `id`, or `None` if there is
    /// none. A plant depleted to quantity 0 is still returned: depletion
    /// never deletes an entry.
    pub fn get_resource(&self, id: &ResourceId) -> (r: Option<Resource>)
        ensures
            r is Some <==> self.resources().dom().contains(*id),
            (r is Some ==> r->0 == self.resources()[*id]),
    {
        resource_map_get(&self.resources, id)
    }

    /// Take the resource stored under `id` out of the store and return
    /// it. This is the only way a resource ever leaves the store.
    pub fn remove_resource(&mut self, id: &ResourceId) -> (r: Option<Resource>)
        requires
            old(self).wf(),
        ensures
            final(self).resources() == old(self).resources().remove(*id),
            final(self).agents() == old(self).agents(),
            final(self).houses() == old(self).houses(),
            r is Some <==> old(self).resources().dom().contains(*id),
            (r is Some ==> r->0 == old(self).resources()[*id]),
            final(self).wf(),
    {
        resource_map_remove(&mut self.resources, id)
    }

    /// How many resources the store holds.
    pub fn resource_count(&self) -> (n: usize)
        ensures
            n == self.resources().dom().len(),
    {
        resource_map_len(&self.resources)
    }

    /// The identifiers of all stored resources, each exactly once, in no
    /// promised order.
    pub fn resource_ids(&self) -> (ids: Vec<ResourceId>)
        ensures
            ids@.no_duplicates(),
            forall|id: ResourceId| #[trigger] ids@.contains(id) <==> self.resources().dom().contains(
                id,
            ),
    {
        resource_map_ids(&self.resources)
    }
}

} // verus!
