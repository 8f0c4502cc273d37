//! Static structures and consumable resources: houses, lakes and plants.

use vstd::prelude::*;

use crate::agents::AgentId;
use crate::space::Position;

verus! {

/// Identifier of a house. Distinct from agent and resource identifiers.
#[derive(Clone, Copy, PartialEq, Eq, Structural, Hash, Debug)]
pub struct HouseId(pub u128);

/// Identifier of a resource. Distinct from agent and house identifiers.
#[derive(Clone, Copy, PartialEq, Eq, Structural, Hash, Debug)]
pub struct ResourceId(pub u128);

/// A static structure with an optional owning agent. The owner field is a
/// non-owning back-reference: deleting the owning agent leaves it dangling,
/// and readers must treat a missing lookup as "unowned by a live agent".
#[derive(Clone, Debug)]
pub struct House {
    pub id: HouseId,
    pub position: Position,
    pub color: String,
    pub size: String,
    pub shape: String,
    pub has_door: bool,
    /// At most one owner at a time, by construction of the single field.
    pub owner_id: Option<AgentId>,
    pub is_locked: bool,
    /// Interior temperature in thousandths of a degree; no bound is
    /// enforced by this core.
    pub interior_temperature_milli: i64,
}

impl House {
    /// Whether `agent_id` owns this house: identifier equality, never
    /// reference identity, and independent of every other attribute.
    pub open spec fn spec_is_owner(self, agent_id: AgentId) -> bool {
        self.owner_id == Some(agent_id)
    }

    /// A new house: large, rectangular, with a door, unlocked, at twenty
    /// degrees, owned by `owner_id` if given.
    pub fn new(id: HouseId, position: Position, color: String, owner_id: Option<AgentId>) -> (h:
        House)
        ensures
            h.id == id,
            h.position == position,
            h.color == color,
            h.size@ == "large"@,
            h.shape@ == "rectangular structure"@,
            h.has_door,
            h.owner_id == owner_id,
            !h.is_locked,
            h.interior_temperature_milli == 20_000,
    {
        House {
            id,
            position,
            color,
            size: "large".to_owned(),
            shape: "rectangular structure".to_owned(),
            has_door: true,
            owner_id,
            is_locked: false,
            interior_temperature_milli: 20_000,
        }
    }

    /// Whether `agent_id` owns this house, by identifier equality.
    pub fn is_owner(&self, agent_id: &AgentId) -> (r: bool)
        ensures
            r == self.spec_is_owner(*agent_id),
    {
        match &self.owner_id {
            Some(owner) => owner.0 == agent_id.0,
            None => false,
        }
    }
}

/// A house owned by one agent reports ownership for no distinct agent.
pub proof fn lemma_owner_exclusive(h: House, a: AgentId, b: AgentId)
    requires
        h.spec_is_owner(a),
        a != b,
    ensures
        !h.spec_is_owner(b),
{
}

/// The ownership query depends on the owner field alone: two houses with
/// equal owner fields answer it alike, however their other attributes
/// differ or mutate.
pub proof fn lemma_owner_independent_of_attributes(h1: House, h2: House, a: AgentId)
    requires
        h1.owner_id == h2.owner_id,
    ensures
        h1.spec_is_owner(a) == h2.spec_is_owner(a),
{
}

/// A consumable or ambient resource: a lake or a plant.
///
/// A plant whose quantity has been depleted to 0 is a valid terminal
/// state and remains a queryable entity; nothing in this core removes it.
#[derive(Clone, Debug)]
pub enum Resource {
    Lake { id: ResourceId, position: Position, radius_milli: i64 },
    Plant { id: ResourceId, position: Position, nutrition_milli: i64, quantity: u32 },
}

impl Resource {
    /// The identifier carried by either variant.
    pub open spec fn spec_id(self) -> ResourceId {
        match self {
            Resource::Lake { id, .. } => id,
            Resource::Plant { id, .. } => id,
        }
    }

    /// The position carried by either variant.
    pub open spec fn spec_position(self) -> Position {
        match self {
            Resource::Lake { position, .. } => position,
            Resource::Plant { position, .. } => position,
        }
    }

    /// The identifier of this resource.
    pub fn get_id(&self) -> (r: &ResourceId)
        ensures
            *r == self.spec_id(),
    {
        match self {
            Resource::Lake { id, .. } => id,
            Resource::Plant { id, .. } => id,
        }
    }

    /// The position of this resource.
    pub fn get_position(&self) -> (r: &Position)
        ensures
            *r == self.spec_position(),
    {
        match self {
            Resource::Lake { position, .. } => position,
            Resource::Plant { position, .. } => position,
        }
    }

    /// The descriptive appearance of this resource, derived afresh on
    /// every call and used for external presentation only.
    pub fn get_appearance(&self) -> (r: ResourceAppearance)
        ensures
            (self is Lake ==> r.shape@ == "large blue circle"@ && r.color@ == "blue"@ && r.size@
                == "large"@ && r.surface is Some && r.surface->0@ == "reflective"@
                && r.resource_type@ == "lake"@),
            (self is Plant ==> r.shape@ == "small green cluster"@ && r.color@ == "green"@
                && r.size@ == "small"@ && r.surface is None && r.resource_type@ == "plant"@),
    {
        match self {
            Resource::Lake { .. } => ResourceAppearance {
                shape: "large blue circle".to_owned(),
                color: "blue".to_owned(),
                size: "large".to_owned(),
                surface: Some("reflective".to_owned()),
                resource_type: "lake".to_owned(),
            },
            Resource::Plant { .. } => ResourceAppearance {
                shape: "small green cluster".to_owned(),
                color: "green".to_owned(),
                size: "small".to_owned(),
                surface: None,
                resource_type: "plant".to_owned(),
            },
        }
    }
}

/// How a resource presents itself to external viewers; purely derived
/// from the variant, never persisted separately.
#[derive(Clone, Debug)]
pub struct ResourceAppearance {
    pub shape: String,
    pub color: String,
    pub size: String,
    pub surface: Option<String>,
    pub resource_type: String,
}

/// The kind of a resource.
#[derive(Clone, Copy, PartialEq, Eq, Structural, Debug)]
pub enum ResourceType {
    Lake,
    Plant,
}

} // verus!
