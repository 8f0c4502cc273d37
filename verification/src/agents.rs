//! Agents and their physiological needs.
//!
//! Need levels are fixed-point: `NEED_POINT` subunits stand for one point on
//! the 0..100 scale. The per-minute decay rates of the reference design
//! (hunger 1.0, thirst 1.5, energy 0.5 points) then become exact integer
//! rates per millisecond: 2, 3 and 1 subunits.

use vstd::prelude::*;

use crate::space::Position;

verus! {

/// Subunits per point of a need scale. Chosen so that every per-minute
/// decay rate is a whole number of subunits per millisecond.
pub const NEED_POINT: u64 = 120_000;

/// The top of every need scale: 100 points.
pub const NEED_MAX: u64 = 100 * NEED_POINT;

/// Hunger decays 1.0 point per minute: 2 subunits per millisecond.
pub const HUNGER_RATE: u64 = 2;

/// Thirst decays 1.5 points per minute: 3 subunits per millisecond.
/// Thirst decays fastest by design: water scarcity is the most
/// time-pressured need.
pub const THIRST_RATE: u64 = 3;

/// Energy decays 0.5 points per minute: 1 subunit per millisecond.
pub const ENERGY_RATE: u64 = 1;

/// Starting hunger of a freshly spawned agent: 75 points.
pub const START_HUNGER: u64 = 75 * NEED_POINT;

/// Starting thirst of a freshly spawned agent: 75 points.
pub const START_THIRST: u64 = 75 * NEED_POINT;

/// Starting energy of a freshly spawned agent: 90 points.
pub const START_ENERGY: u64 = 90 * NEED_POINT;

/// Below 20 points of thirst or hunger the need is critical.
pub const SUSTENANCE_CRITICAL: u64 = 20 * NEED_POINT;

/// Below 15 points of energy the need is critical.
pub const ENERGY_CRITICAL: u64 = 15 * NEED_POINT;

/// Identifier of an agent. Distinct from house and resource identifiers
/// even though all wrap the same unique-value representation.
#[derive(Clone, Copy, PartialEq, Eq, Structural, Hash, Debug)]
pub struct AgentId(pub u128);

/// The most critical unmet physiological need.
#[derive(Clone, Copy, PartialEq, Eq, Structural, Debug)]
pub enum Need {
    Water,
    Food,
    Sleep,
}

/// Five bounded need scalars plus a shelter flag. Every scalar stays in
/// [0, NEED_MAX] after every update: decay clamps at 0, and nothing in
/// this core raises a need (replenishment is an external action).
#[derive(Clone, PartialEq, Eq, Structural, Debug)]
pub struct PhysiologicalNeeds {
    pub hunger: u64,
    pub thirst: u64,
    pub energy: u64,
    pub bladder: u64,
    pub hygiene: u64,
    pub shelter: bool,
}

/// `value` after `delta_ms` milliseconds of decay at `rate` subunits per
/// millisecond, clamped at a floor of 0.
pub open spec fn decayed(value: int, delta_ms: int, rate: int) -> int {
    if value - delta_ms * rate >= 0 {
        value - delta_ms * rate
    } else {
        0
    }
}

/// One decay pass over a needs record: hunger, thirst and energy decay at
/// their fixed rates; bladder, hygiene and shelter are left untouched.
pub open spec fn needs_updated(n: PhysiologicalNeeds, delta_ms: u64) -> PhysiologicalNeeds {
    PhysiologicalNeeds {
        hunger: decayed(n.hunger as int, delta_ms as int, HUNGER_RATE as int) as u64,
        thirst: decayed(n.thirst as int, delta_ms as int, THIRST_RATE as int) as u64,
        energy: decayed(n.energy as int, delta_ms as int, ENERGY_RATE as int) as u64,
        ..n
    }
}

/// The needs record after a whole sequence of decay passes.
pub open spec fn needs_after(n: PhysiologicalNeeds, deltas: Seq<u64>) -> PhysiologicalNeeds
    decreases deltas.len(),
{
    if deltas.len() == 0 {
        n
    } else {
        needs_after(needs_updated(n, deltas[0]), deltas.skip(1))
    }
}

/// The most critical unmet need, by the fixed priority order
/// thirst, then hunger, then energy, each against its own threshold.
pub open spec fn spec_critical_need(n: PhysiologicalNeeds) -> Option<Need> {
    if n.thirst < SUSTENANCE_CRITICAL {
        Some(Need::Water)
    } else if n.hunger < SUSTENANCE_CRITICAL {
        Some(Need::Food)
    } else if n.energy < ENERGY_CRITICAL {
        Some(Need::Sleep)
    } else {
        None
    }
}

impl PhysiologicalNeeds {
    /// The needs record of a freshly spawned agent.
    pub open spec fn spec_start() -> PhysiologicalNeeds {
        PhysiologicalNeeds {
            hunger: START_HUNGER,
            thirst: START_THIRST,
            energy: START_ENERGY,
            bladder: NEED_MAX,
            hygiene: NEED_MAX,
            shelter: false,
        }
    }

    /// Every need scalar is on its scale.
    pub open spec fn wf(self) -> bool {
        &&& self.hunger <= NEED_MAX
        &&& self.thirst <= NEED_MAX
        &&& self.energy <= NEED_MAX
        &&& self.bladder <= NEED_MAX
        &&& self.hygiene <= NEED_MAX
    }

    /// The starting needs of a freshly spawned agent.
    pub fn new() -> (n: PhysiologicalNeeds)
        ensures
            n == PhysiologicalNeeds::spec_start(),
            n.wf(),
    {
        PhysiologicalNeeds {
            hunger: START_HUNGER,
            thirst: START_THIRST,
            energy: START_ENERGY,
            bladder: NEED_MAX,
            hygiene: NEED_MAX,
            shelter: false,
        }
    }

    /// One decay pass of `delta_ms` milliseconds.
    pub fn update(&mut self, delta_ms: u64)
        requires
            old(self).wf(),
        ensures
            *final(self) == needs_updated(*old(self), delta_ms),
            final(self).wf(),
            final(self).hunger <= old(self).hunger,
            final(self).thirst <= old(self).thirst,
            final(self).energy <= old(self).energy,
    {
        proof {
            lemma_needs_updated_bounds(*self, delta_ms);
        }
        self.hunger = decay(self.hunger, delta_ms, HUNGER_RATE);
        self.thirst = decay(self.thirst, delta_ms, THIRST_RATE);
        self.energy = decay(self.energy, delta_ms, ENERGY_RATE);
    }

    /// The most critical unmet need, if any, checked in the fixed
    /// priority order thirst, hunger, energy on every call.
    pub fn get_critical_need(&self) -> (r: Option<Need>)
        ensures
            r == spec_critical_need(*self),
    {
        if self.thirst < SUSTENANCE_CRITICAL {
            return Some(Need::Water);
        }
        if self.hunger < SUSTENANCE_CRITICAL {
            return Some(Need::Food);
        }
        if self.energy < ENERGY_CRITICAL {
            return Some(Need::Sleep);
        }
        None
    }
}

/// `value` decayed for `delta_ms` milliseconds at `rate` subunits per
/// millisecond, clamped at 0.
fn decay(value: u64, delta_ms: u64, rate: u64) -> (r: u64)
    requires
        value <= NEED_MAX,
        1 <= rate <= 3,
    ensures
        r == decayed(value as int, delta_ms as int, rate as int),
        r <= value,
{
    if delta_ms >= NEED_MAX {
        proof {
            assert(delta_ms * rate >= value) by (nonlinear_arith)
                requires
                    rate >= 1,
                    delta_ms >= NEED_MAX,
                    value <= NEED_MAX,
            ;
        }
        0
    } else {
        proof {
            assert(delta_ms * rate <= 3 * NEED_MAX) by (nonlinear_arith)
                requires
                    delta_ms < NEED_MAX,
                    rate <= 3,
                    0 <= delta_ms,
                    0 <= rate,
            ;
        }
        let dec = delta_ms * rate;
        if dec >= value {
            0
        } else {
            value - dec
        }
    }
}

/// One decay pass keeps every scalar on its scale and never raises
/// hunger, thirst or energy.
pub proof fn lemma_needs_updated_bounds(n: PhysiologicalNeeds, delta_ms: u64)
    requires
        n.wf(),
    ensures
        needs_updated(n, delta_ms).wf(),
        needs_updated(n, delta_ms).hunger <= n.hunger,
        needs_updated(n, delta_ms).thirst <= n.thirst,
        needs_updated(n, delta_ms).energy <= n.energy,
        needs_updated(n, delta_ms).bladder == n.bladder,
        needs_updated(n, delta_ms).hygiene == n.hygiene,
        needs_updated(n, delta_ms).shelter == n.shelter,
{
    assert(delta_ms as int * HUNGER_RATE as int >= 0) by (nonlinear_arith);
    assert(delta_ms as int * THIRST_RATE as int >= 0) by (nonlinear_arith);
    assert(delta_ms as int * ENERGY_RATE as int >= 0) by (nonlinear_arith);
}

/// For every sequence of decay passes, each of hunger, thirst and energy
/// stays within [0, NEED_MAX] and never rises above its starting level,
/// and bladder, hygiene and shelter are untouched.
pub proof fn lemma_needs_bounded(n: PhysiologicalNeeds, deltas: Seq<u64>)
    requires
        n.wf(),
    ensures
        needs_after(n, deltas).wf(),
        needs_after(n, deltas).hunger <= n.hunger,
        needs_after(n, deltas).thirst <= n.thirst,
        needs_after(n, deltas).energy <= n.energy,
        needs_after(n, deltas).bladder == n.bladder,
        needs_after(n, deltas).hygiene == n.hygiene,
        needs_after(n, deltas).shelter == n.shelter,
    decreases deltas.len(),
{
    if deltas.len() > 0 {
        lemma_needs_updated_bounds(n, deltas[0]);
        lemma_needs_bounded(needs_updated(n, deltas[0]), deltas.skip(1));
    }
}

/// Named item counts carried by an agent; each count is non-negative by
/// construction. The tick never mutates the inventory.
#[derive(Clone, Debug)]
pub struct Inventory {
    pub items: Vec<(String, u32)>,
}

impl Inventory {
    /// An empty inventory.
    pub fn new() -> (inv: Inventory)
        ensures
            inv.items@.len() == 0,
    {
        Inventory { items: Vec::new() }
    }
}

/// An autonomous agent: identity, display name, transform, an optional
/// link to a physics body, needs, inventory and known locations.
#[derive(Clone, Debug)]
pub struct Agent {
    pub id: AgentId,
    pub name: String,
    pub position: Position,
    pub rotation: crate::space::Orientation,
    /// Handle of the physics body backing this agent, if any; absence
    /// means the agent is purely logical and has no collider.
    pub rigid_body_handle: Option<u64>,
    pub needs: PhysiologicalNeeds,
    pub inventory: Inventory,
    /// Known-location names mapped to positions; starts empty and is
    /// populated externally.
    pub known_locations: Vec<(String, Position)>,
}

impl Agent {
    /// The needs record is on its scales.
    pub open spec fn wf(self) -> bool {
        self.needs.wf()
    }

    /// A freshly spawned agent at `position`: identity rotation, no
    /// physics body, starting needs, empty inventory, nothing known.
    pub fn new(id: AgentId, name: String, position: Position) -> (a: Agent)
        ensures
            a.id == id,
            a.name == name,
            a.position == position,
            a.rotation == (crate::space::Orientation { w: 1000, x: 0, y: 0, z: 0 }),
            a.rigid_body_handle.is_none(),
            a.needs == PhysiologicalNeeds::spec_start(),
            a.inventory.items@.len() == 0,
            a.known_locations@.len() == 0,
            a.wf(),
    {
        Agent {
            id,
            name,
            position,
            rotation: crate::space::Orientation::identity(),
            rigid_body_handle: None,
            needs: PhysiologicalNeeds::new(),
            inventory: Inventory::new(),
            known_locations: Vec::new(),
        }
    }

    /// One needs-decay pass; nothing else of the agent changes.
    pub fn update_needs(&mut self, delta_ms: u64)
        requires
            old(self).wf(),
        ensures
            final(self).needs == needs_updated(old(self).needs, delta_ms),
            final(self).wf(),
            final(self).id == old(self).id,
            final(self).name == old(self).name,
            final(self).position == old(self).position,
            final(self).rotation == old(self).rotation,
            final(self).rigid_body_handle == old(self).rigid_body_handle,
            final(self).inventory == old(self).inventory,
            final(self).known_locations == old(self).known_locations,
    {
        self.needs.update(delta_ms);
    }
}

} // verus!
