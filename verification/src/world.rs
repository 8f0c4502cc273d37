//! The world: one entity store, one simulation clock, one physics-body
//! ledger, and the operations the service layer and the tick driver use.
//!
//! Every operation validates the identifiers it is given before mutating,
//! reports "not found" distinctly from "invalid state" distinctly from
//! "permission denied", and on any error leaves the world exactly as it
//! was: no partial mutation is ever visible.

use vstd::prelude::*;

use crate::agents::{needs_updated, Agent, AgentId};
use crate::clock::SimulationClock;
use crate::objects::{House, HouseId, Resource, ResourceId};
use crate::physics::{BodyTransform, PhysicsBodies};
use crate::space::Position;
use crate::store::EntityStore;

verus! {

/// Why a world operation was refused.
#[derive(Clone, Copy, PartialEq, Eq, Structural, Debug)]
pub enum WorldError {
    /// A lookup by identifier found no entity. Recoverable; surfaced to
    /// the caller, never fatal.
    NotFound,
    /// An operation's precondition fails: a defect, refused before any
    /// state is touched.
    InvalidState,
    /// The actor may not affect the target entity. Recoverable.
    PermissionDenied,
    /// The physics backend failed to produce a step result. Fatal to the
    /// tick: the tick driver should stop advancing and report.
    BackendFailure,
}

/// The first well-known agent identifier used by the bootstrap world.
pub const FIRST_KNOWN_AGENT: u128 = 1;

/// The second well-known agent identifier used by the bootstrap world.
pub const SECOND_KNOWN_AGENT: u128 = 2;

/// Generated identifiers start above the reserved well-known ones.
pub const FIRST_GENERATED_ID: u128 = 3;

/// `a` with the position and rotation of `t`, if `t` addresses the body
/// the agent is linked to; otherwise `a` unchanged.
pub open spec fn apply_transform(a: Agent, t: BodyTransform) -> Agent {
    if a.rigid_body_handle == Some(t.handle) {
        Agent { position: t.position, rotation: t.rotation, ..a }
    } else {
        a
    }
}

/// `a` after the whole transform list has been applied in order.
pub open spec fn moved_agent(a: Agent, ts: Seq<BodyTransform>) -> Agent
    decreases ts.len(),
{
    if ts.len() == 0 {
        a
    } else {
        moved_agent(apply_transform(a, ts[0]), ts.skip(1))
    }
}

/// `a` after one whole tick: first moved by the backend's post-step
/// transforms, then its needs decayed by `delta_ms`.
pub open spec fn stepped_agent(a: Agent, ts: Seq<BodyTransform>, delta_ms: u64) -> Agent {
    let m = moved_agent(a, ts);
    Agent { needs: needs_updated(m.needs, delta_ms), ..m }
}

/// Applying transforms touches only position and rotation.
pub proof fn lemma_moved_agent_fields(a: Agent, ts: Seq<BodyTransform>)
    ensures
        moved_agent(a, ts).id == a.id,
        moved_agent(a, ts).name == a.name,
        moved_agent(a, ts).rigid_body_handle == a.rigid_body_handle,
        moved_agent(a, ts).needs == a.needs,
        moved_agent(a, ts).inventory == a.inventory,
        moved_agent(a, ts).known_locations == a.known_locations,
    decreases ts.len(),
{
    if ts.len() > 0 {
        lemma_moved_agent_fields(apply_transform(a, ts[0]), ts.skip(1));
    }
}

/// Appending one transform to the list is one more application.
pub proof fn lemma_moved_agent_push(a: Agent, ts: Seq<BodyTransform>, t: BodyTransform)
    ensures
        moved_agent(a, ts.push(t)) == apply_transform(moved_agent(a, ts), t),
    decreases ts.len(),
{
    if ts.len() == 0 {
        assert(ts.push(t)[0] == t);
        assert(ts.push(t).skip(1) =~= Seq::<BodyTransform>::empty());
        assert(moved_agent(a, ts.push(t)) == moved_agent(
            apply_transform(a, t),
            ts.push(t).skip(1),
        ));
        assert(moved_agent(apply_transform(a, t), ts.push(t).skip(1)) == apply_transform(a, t));
        assert(apply_transform(moved_agent(a, ts), t) == apply_transform(a, t));
    } else {
        assert(ts.push(t)[0] == ts[0]);
        assert(ts.push(t).skip(1) =~= ts.skip(1).push(t));
        lemma_moved_agent_push(apply_transform(a, ts[0]), ts.skip(1), t);
        assert(moved_agent(a, ts.push(t)) == moved_agent(
            apply_transform(a, ts[0]),
            ts.skip(1).push(t),
        ));
        assert(moved_agent(a, ts) == moved_agent(apply_transform(a, ts[0]), ts.skip(1)));
    }
}

/// The single world instance: one entity store, one clock, one body
/// ledger, and the source of fresh identifiers.
pub struct World {
    pub store: EntityStore,
    pub clock: SimulationClock,
    pub bodies: PhysicsBodies,
    /// The fixed ground body of a bootstrapped world, if one was made.
    pub ground_body: Option<u64>,
    /// The next raw identifier to hand out; every stored identifier is
    /// below it, so a fresh identifier never collides. Mutated only
    /// through `fresh_raw_id`.
    pub next_raw_id: u128,
}

impl World {
    /// The agent entries.
    pub open spec fn agents(self) -> Map<AgentId, Agent> {
        self.store.agents()
    }

    /// The house entries.
    pub open spec fn houses(self) -> Map<HouseId, House> {
        self.store.houses()
    }

    /// The resource entries.
    pub open spec fn resources(self) -> Map<ResourceId, Resource> {
        self.store.resources()
    }

    /// The next raw identifier to be handed out.
    pub open spec fn next_id(self) -> u128 {
        self.next_raw_id
    }

    /// The agent stored under `id` is internally consistent: keyed by its
    /// own identifier, needs on their scales, any body link live, and its
    /// identifier already handed out.
    pub open spec fn agent_entry_wf(self, id: AgentId) -> bool {
        &&& self.agents()[id].id == id
        &&& self.agents()[id].wf()
        &&& (self.agents()[id].rigid_body_handle is Some ==> self.bodies.is_live(
            self.agents()[id].rigid_body_handle->0,
        ))
        &&& id.0 < self.next_raw_id
    }

    /// Two distinct agents never share a physics body.
    pub open spec fn handles_distinct(self) -> bool {
        forall|i1: AgentId, i2: AgentId|
            #![trigger self.agents()[i1], self.agents()[i2]]
            self.agents().dom().contains(i1) && self.agents().dom().contains(i2) && i1 != i2
                && self.agents()[i1].rigid_body_handle is Some
                && self.agents()[i2].rigid_body_handle is Some
                ==> self.agents()[i1].rigid_body_handle->0 != self.agents()[i2].rigid_body_handle->0
    }

    /// The ground body, if any, is the backend's own: no agent is ever
    /// linked to it.
    pub open spec fn ground_unshared(self) -> bool {
        forall|id: AgentId|
            #[trigger] self.agents().dom().contains(id) && self.ground_body is Some
                && self.agents()[id].rigid_body_handle is Some
                ==> self.agents()[id].rigid_body_handle->0 != self.ground_body->0
    }

    /// The world invariant: every component well-formed, every entity
    /// keyed by its own identifier, every body link live and unshared,
    /// every stored identifier below the next fresh one.
    pub open spec fn wf(self) -> bool {
        &&& self.store.wf()
        &&& self.clock.wf()
        &&& self.bodies.wf()
        &&& forall|id: AgentId|
            #[trigger] self.agents().dom().contains(id) ==> self.agent_entry_wf(id)
        &&& self.handles_distinct()
        &&& forall|id: HouseId|
            #[trigger] self.houses().dom().contains(id) ==> self.houses()[id].id == id && id.0
                < self.next_raw_id
        &&& forall|id: ResourceId|
            #[trigger] self.resources().dom().contains(id) ==> self.resources()[id].spec_id()
                == id && id.0 < self.next_raw_id
        &&& (self.ground_body is Some ==> self.bodies.is_live(self.ground_body->0))
        &&& self.ground_unshared()
    }

    /// An empty world: no entities, no bodies, the clock at zero.
    pub fn new() -> (w: World)
        ensures
            w.wf(),
            w.agents() == crate::store::no_agent_entries(),
            w.houses() == crate::store::no_house_entries(),
            w.resources() == crate::store::no_resource_entries(),
            w.clock.total_ms == 0,
            w.next_id() == FIRST_GENERATED_ID,
            forall|h: u64| !w.bodies.is_live(h),
            w.bodies.live_count() == 0,
            w.bodies.spec_next_handle() == 0,
            w.ground_body is None,
    {
        World {
            store: EntityStore::new(),
            clock: SimulationClock::new(),
            bodies: PhysicsBodies::new(),
            ground_body: None,
            next_raw_id: FIRST_GENERATED_ID,
        }
    }

    /// The canonical starting world: one fixed ground body, two houses
    /// at fixed symmetric positions owned by the two well-known agents,
    /// one lake at the origin, five plants at equal angular spacing on a
    /// circle of radius 15 units, and the two agents at their fixed
    /// starting spots. A reproducible fixture: every call yields the same
    /// entity counts, identifiers and layout.
    ///
    /// The embedding backend must give the ground handle a fixed cuboid
    /// collider of half-extents 50 by 0.1 by 50 at the origin's floor.
    pub fn create_blank_slate_world() -> (w: World)
        ensures
            w.wf(),
            w.clock.total_ms == 0,
            w.ground_body == Some(0u64),
            w.bodies.is_live(0),
            w.bodies.live_count() == 1,
            w.agents().dom() == bootstrap_agent_ids(),
            w.houses().dom() == bootstrap_house_ids(),
            w.resources().dom() == bootstrap_resource_ids(),
            w.agents()[AgentId(FIRST_KNOWN_AGENT)].name@ == "Alice"@,
            w.agents()[AgentId(FIRST_KNOWN_AGENT)].position == (Position {
                x: 5000,
                y: 0,
                z: 5000,
            }),
            w.agents()[AgentId(FIRST_KNOWN_AGENT)].needs
                == crate::agents::PhysiologicalNeeds::spec_start(),
            w.agents()[AgentId(FIRST_KNOWN_AGENT)].rigid_body_handle is None,
            w.agents()[AgentId(SECOND_KNOWN_AGENT)].name@ == "Bob"@,
            w.agents()[AgentId(SECOND_KNOWN_AGENT)].position == (Position {
                x: -5000i64,
                y: 0,
                z: -5000i64,
            }),
            w.agents()[AgentId(SECOND_KNOWN_AGENT)].needs
                == crate::agents::PhysiologicalNeeds::spec_start(),
            w.agents()[AgentId(SECOND_KNOWN_AGENT)].rigid_body_handle is None,
            w.houses()[HouseId(3)].position == (Position { x: 10_000, y: 0, z: 10_000 }),
            w.houses()[HouseId(3)].color@ == "red"@,
            w.houses()[HouseId(3)].spec_is_owner(AgentId(FIRST_KNOWN_AGENT)),
            !w.houses()[HouseId(3)].is_locked,
            w.houses()[HouseId(4)].position == (Position { x: -10_000i64, y: 0, z: -10_000i64 }),
            w.houses()[HouseId(4)].color@ == "blue"@,
            w.houses()[HouseId(4)].spec_is_owner(AgentId(SECOND_KNOWN_AGENT)),
            !w.houses()[HouseId(4)].is_locked,
            w.resources()[ResourceId(5)] == (Resource::Lake {
                id: ResourceId(5),
                position: Position { x: 0, y: 0, z: 0 },
                radius_milli: 5000,
            }),
            w.resources()[ResourceId(6)] == (Resource::Plant {
                id: ResourceId(6),
                position: Position { x: 15_000, y: 0, z: 0 },
                nutrition_milli: 20_000,
                quantity: 5,
            }),
            w.resources()[ResourceId(7)] == (Resource::Plant {
                id: ResourceId(7),
                position: Position { x: 4635, y: 0, z: 14_266 },
                nutrition_milli: 20_000,
                quantity: 5,
            }),
            w.resources()[ResourceId(8)] == (Resource::Plant {
                id: ResourceId(8),
                position: Position { x: -12_135i64, y: 0, z: 8817 },
                nutrition_milli: 20_000,
                quantity: 5,
            }),
            w.resources()[ResourceId(9)] == (Resource::Plant {
                id: ResourceId(9),
                position: Position { x: -12_135i64, y: 0, z: -8817i64 },
                nutrition_milli: 20_000,
                quantity: 5,
            }),
            w.resources()[ResourceId(10)] == (Resource::Plant {
                id: ResourceId(10),
                position: Position { x: 4635, y: 0, z: -14_266i64 },
                nutrition_milli: 20_000,
                quantity: 5,
            }),
            w.next_id() == 11,
    {
        let mut w = World::new();
        let g = w.bodies.create_body();
        w.ground_body = Some(g);
        let h1 = HouseId(w.fresh_raw_id());
        let house1 = House::new(
            h1,
            Position::new(10_000, 0, 10_000),
            "red".to_owned(),
            Some(AgentId(FIRST_KNOWN_AGENT)),
        );
        w.store.insert_house(house1);
        let h2 = HouseId(w.fresh_raw_id());
        let house2 = House::new(
            h2,
            Position::new(-10_000i64, 0, -10_000i64),
            "blue".to_owned(),
            Some(AgentId(SECOND_KNOWN_AGENT)),
        );
        w.store.insert_house(house2);
        let lake_id = ResourceId(w.fresh_raw_id());
        let lake = Resource::Lake {
            id: lake_id,
            position: Position::origin(),
            radius_milli: 5000,
        };
        w.store.insert_resource(lake);
        let p0 = ResourceId(w.fresh_raw_id());
        w.store.insert_resource(
            Resource::Plant {
                id: p0,
                position: Position::new(15_000, 0, 0),
                nutrition_milli: 20_000,
                quantity: 5,
            },
        );
        let p1 = ResourceId(w.fresh_raw_id());
        w.store.insert_resource(
            Resource::Plant {
                id: p1,
                position: Position::new(4635, 0, 14_266),
                nutrition_milli: 20_000,
                quantity: 5,
            },
        );
        let p2 = ResourceId(w.fresh_raw_id());
        w.store.insert_resource(
            Resource::Plant {
                id: p2,
                position: Position::new(-12_135i64, 0, 8817),
                nutrition_milli: 20_000,
                quantity: 5,
            },
        );
        let p3 = ResourceId(w.fresh_raw_id());
        w.store.insert_resource(
            Resource::Plant {
                id: p3,
                position: Position::new(-12_135i64, 0, -8817i64),
                nutrition_milli: 20_000,
                quantity: 5,
            },
        );
        let p4 = ResourceId(w.fresh_raw_id());
        w.store.insert_resource(
            Resource::Plant {
                id: p4,
                position: Position::new(4635, 0, -14_266i64),
                nutrition_milli: 20_000,
                quantity: 5,
            },
        );
        let alice = Agent::new(
            AgentId(FIRST_KNOWN_AGENT),
            "Alice".to_owned(),
            Position::new(5000, 0, 5000),
        );
        w.store.insert_agent(alice);
        let bob = Agent::new(
            AgentId(SECOND_KNOWN_AGENT),
            "Bob".to_owned(),
            Position::new(-5000i64, 0, -5000i64),
        );
        w.store.insert_agent(bob);
        proof {
            assert(w.agents().dom() =~= bootstrap_agent_ids());
            assert(w.houses().dom() =~= bootstrap_house_ids());
            assert(w.resources().dom() =~= bootstrap_resource_ids());
            assert forall|a: AgentId|
                #[trigger] w.agents().dom().contains(a) implies w.agent_entry_wf(a) by {
                assert(a == AgentId(FIRST_KNOWN_AGENT) || a == AgentId(SECOND_KNOWN_AGENT));
            }
            assert forall|id: HouseId|
                #[trigger] w.houses().dom().contains(id) implies w.houses()[id].id == id && id.0
                < w.next_raw_id by {
                assert(id == HouseId(3) || id == HouseId(4));
            }
            assert forall|id: ResourceId|
                #[trigger] w.resources().dom().contains(id) implies w.resources()[id].spec_id()
                == id && id.0 < w.next_raw_id by {
                assert(id == ResourceId(5) || id == ResourceId(6) || id == ResourceId(7) || id
                    == ResourceId(8) || id == ResourceId(9) || id == ResourceId(10));
            }
        }
        w
    }

    /// Hand out the next raw identifier.
    fn fresh_raw_id(&mut self) -> (id: u128)
        requires
            old(self).next_id() < u128::MAX,
        ensures
            id == old(self).next_id(),
            final(self).next_id() == id + 1,
            final(self).store == old(self).store,
            final(self).clock == old(self).clock,
            final(self).bodies == old(self).bodies,
            final(self).ground_body == old(self).ground_body,
    {
        let id = self.next_raw_id;
        self.next_raw_id = id + 1;
        id
    }

    /// Spawn a purely logical agent (no physics body yet) under a fresh
    /// identifier; nothing else changes.
    pub fn spawn_agent(&mut self, name: String, position: Position) -> (id: AgentId)
        requires
            old(self).wf(),
            old(self).next_id() < u128::MAX,
        ensures
            final(self).wf(),
            !old(self).agents().dom().contains(id),
            final(self).agents() == old(self).agents().insert(id, final(self).agents()[id]),
            final(self).agents()[id].id == id,
            final(self).agents()[id].name == name,
            final(self).agents()[id].position == position,
            final(self).agents()[id].rigid_body_handle is None,
            final(self).agents()[id].needs == crate::agents::PhysiologicalNeeds::spec_start(),
            final(self).houses() == old(self).houses(),
            final(self).resources() == old(self).resources(),
            final(self).clock == old(self).clock,
            final(self).bodies == old(self).bodies,
    {
        let raw = self.fresh_raw_id();
        let id = AgentId(raw);
        proof {
            if old(self).agents().dom().contains(id) {
                assert(old(self).agent_entry_wf(id));
            }
        }
        let agent = Agent::new(id, name, position);
        self.store.insert_agent(agent);
        proof {
            assert(self.houses() == old(self).houses());
            assert(self.resources() == old(self).resources());
            assert(self.next_raw_id == old(self).next_raw_id + 1);
        }
        id
    }

    /// Despawn the agent behind `id`, releasing any linked physics body.
    /// Fails with `NotFound`, and changes nothing, if there is no such
    /// agent.
    pub fn despawn_agent(&mut self, id: &AgentId) -> (r: Result<(), WorldError>)
        requires
            old(self).wf(),
        ensures
            final(self).wf(),
            r is Ok <==> old(self).agents().dom().contains(*id),
            (r is Err ==> r->Err_0 == WorldError::NotFound && *final(self) == *old(self)),
            (r is Ok ==> final(self).agents() == old(self).agents().remove(*id)),
            final(self).houses() == old(self).houses(),
            final(self).resources() == old(self).resources(),
            final(self).clock == old(self).clock,
            (r is Ok && old(self).agents()[*id].rigid_body_handle is Some ==> !final(self).bodies
                .is_live(old(self).agents()[*id].rigid_body_handle->0)),
            (r is Ok && old(self).agents()[*id].rigid_body_handle is None ==> final(self).bodies
                == old(self).bodies),
    {
        let found = self.store.get_agent(id);
        match found {
            Some(agent) => {
                self.store.remove_agent(id);
                match agent.rigid_body_handle {
                    Some(h) => {
                        proof {
                            assert(old(self).agent_entry_wf(*id));
                        }
                        self.bodies.release_body(h);
                        proof {
                            if self.ground_body is Some {
                                assert(old(self).agents()[*id].rigid_body_handle->0 != self
                                    .ground_body->0);
                            }
                        }
                    },
                    None => {},
                }
                proof {
                    assert(self.houses() == old(self).houses());
                    assert(self.resources() == old(self).resources());
                    assert(self.next_raw_id == old(self).next_raw_id);
                    assert(self.agents() == old(self).agents().remove(*id));
                    assert forall|a: AgentId|
                        #[trigger] self.agents().dom().contains(a) implies self.agent_entry_wf(
                        a,
                    ) by {
                        assert(a != *id);
                        assert(old(self).agents().dom().contains(a));
                        assert(old(self).agent_entry_wf(a));
                        assert(self.agents()[a] == old(self).agents()[a]);
                        if self.agents()[a].rigid_body_handle is Some
                            && agent.rigid_body_handle is Some {
                            assert(old(self).agents()[a].rigid_body_handle->0
                                != agent.rigid_body_handle->0);
                        }
                    }
                    assert forall|i1: AgentId, i2: AgentId|
                        #![trigger self.agents()[i1], self.agents()[i2]]
                        self.agents().dom().contains(i1) && self.agents().dom().contains(i2) && i1
                            != i2 && self.agents()[i1].rigid_body_handle is Some
                            && self.agents()[i2].rigid_body_handle is Some implies self.agents()[i1].rigid_body_handle->0
                        != self.agents()[i2].rigid_body_handle->0 by {
                        assert(old(self).agents().dom().contains(i1));
                        assert(old(self).agents().dom().contains(i2));
                        assert(self.agents()[i1] == old(self).agents()[i1]);
                        assert(self.agents()[i2] == old(self).agents()[i2]);
                    }
                }
                Ok(())
            },
            None => Err(WorldError::NotFound),
        }
    }

    /// Create a physics body for the agent behind `id` and link the agent
    /// to it; the embedding backend must create the concrete body under
    /// the returned handle. Fails with `NotFound`, and changes nothing,
    /// if there is no such agent.
    pub fn attach_body(&mut self, id: &AgentId) -> (r: Result<u64, WorldError>)
        requires
            old(self).wf(),
            old(self).bodies.spec_next_handle() < u64::MAX,
        ensures
            final(self).wf(),
            r is Ok <==> old(self).agents().dom().contains(*id),
            (r is Err ==> r->Err_0 == WorldError::NotFound && *final(self) == *old(self)),
            (r is Ok ==> {
                &&& !old(self).bodies.is_live(r->Ok_0)
                &&& final(self).bodies.is_live(r->Ok_0)
                &&& forall|x: u64|
                    x != r->Ok_0 ==> final(self).bodies.is_live(x) == old(self).bodies.is_live(x)
                &&& final(self).agents() == old(self).agents().insert(
                    *id,
                    final(self).agents()[*id],
                )
                &&& final(self).agents()[*id] == (Agent {
                    rigid_body_handle: Some(r->Ok_0),
                    ..old(self).agents()[*id]
                })
            }),
            final(self).houses() == old(self).houses(),
            final(self).resources() == old(self).resources(),
            final(self).clock == old(self).clock,
    {
        let found = self.store.get_agent(id);
        match found {
            Some(mut agent) => {
                let h = self.bodies.create_body();
                agent.rigid_body_handle = Some(h);
                self.store.insert_agent(agent);
                proof {
                    assert(old(self).agent_entry_wf(*id));
                    assert(agent.id == *id);
                    assert(self.houses() == old(self).houses());
                    assert(self.resources() == old(self).resources());
                    assert(self.next_raw_id == old(self).next_raw_id);
                    assert(self.agents() == old(self).agents().insert(*id, agent));
                    assert forall|a: AgentId|
                        #[trigger] self.agents().dom().contains(a) implies self.agent_entry_wf(
                        a,
                    ) by {
                        if a != *id {
                            assert(old(self).agents().dom().contains(a));
                            assert(old(self).agent_entry_wf(a));
                            assert(self.agents()[a] == old(self).agents()[a]);
                        }
                    }
                    assert forall|a: AgentId|
                        #[trigger] self.agents().dom().contains(a) && self.ground_body is Some
                            && self.agents()[a].rigid_body_handle is Some implies self.agents()[a].rigid_body_handle->0
                        != self.ground_body->0 by {
                        if a == *id {
                            old(self).bodies.lemma_live_below_next(self.ground_body->0);
                        } else {
                            assert(old(self).agents().dom().contains(a));
                            assert(self.agents()[a] == old(self).agents()[a]);
                        }
                    }
                    assert forall|i1: AgentId, i2: AgentId|
                        #![trigger self.agents()[i1], self.agents()[i2]]
                        self.agents().dom().contains(i1) && self.agents().dom().contains(i2) && i1
                            != i2 && self.agents()[i1].rigid_body_handle is Some
                            && self.agents()[i2].rigid_body_handle is Some implies self.agents()[i1].rigid_body_handle->0
                        != self.agents()[i2].rigid_body_handle->0 by {
                        if i1 == *id || i2 == *id {
                            let other = if i1 == *id {
                                i2
                            } else {
                                i1
                            };
                            assert(old(self).agents().dom().contains(other));
                            assert(old(self).agent_entry_wf(other));
                            if old(self).agents()[other].rigid_body_handle is Some {
                                old(self).bodies.lemma_live_below_next(
                                    old(self).agents()[other].rigid_body_handle->0,
                                );
                            }
                        } else {
                            assert(old(self).agents().dom().contains(i1));
                            assert(old(self).agents().dom().contains(i2));
                        }
                    }
                    if self.ground_body is Some {
                        old(self).bodies.lemma_live_below_next(self.ground_body->0);
                    }
                }
                Ok(h)
            },
            None => Err(WorldError::NotFound),
        }
    }

    /// Move the agent behind `id` to `position`; every other field of the
    /// agent, and everything else in the world, stays as it was. Fails
    /// with `NotFound`, and changes nothing, if there is no such agent.
    pub fn set_agent_position(&mut self, id: &AgentId, position: Position) -> (r: Result<
        (),
        WorldError,
    >)
        requires
            old(self).wf(),
        ensures
            final(self).wf(),
            r is Ok <==> old(self).agents().dom().contains(*id),
            (r is Err ==> r->Err_0 == WorldError::NotFound && *final(self) == *old(self)),
            (r is Ok ==> final(self).agents() == old(self).agents().insert(
                *id,
                (Agent { position: position, ..old(self).agents()[*id] }),
            )),
            final(self).houses() == old(self).houses(),
            final(self).resources() == old(self).resources(),
            final(self).clock == old(self).clock,
            final(self).bodies == old(self).bodies,
    {
        let found = self.store.get_agent(id);
        match found {
            Some(mut agent) => {
                agent.position = position;
                self.store.insert_agent(agent);
                proof {
                    assert(old(self).agent_entry_wf(*id));
                    assert(self.agents() == old(self).agents().insert(*id, agent));
                    assert(self.agents().dom() =~= old(self).agents().dom());
                    lemma_wf_after_agents_changed(*old(self), *self);
                }
                Ok(())
            },
            None => Err(WorldError::NotFound),
        }
    }

    /// Set the lock flag of the house behind `id` on behalf of `actor`.
    /// Only the owner may do so: a missing house is `NotFound`, a house
    /// the actor does not own is `PermissionDenied`, and either failure
    /// changes nothing.
    fn set_house_locked(&mut self, id: &HouseId, actor: &AgentId, locked: bool) -> (r: Result<
        (),
        WorldError,
    >)
        requires
            old(self).wf(),
        ensures
            final(self).wf(),
            r is Ok <==> (old(self).houses().dom().contains(*id)
                && old(self).houses()[*id].spec_is_owner(*actor)),
            (r is Err && !old(self).houses().dom().contains(*id) ==> r->Err_0
                == WorldError::NotFound),
            (r is Err && old(self).houses().dom().contains(*id) ==> r->Err_0
                == WorldError::PermissionDenied),
            (r is Err ==> *final(self) == *old(self)),
            (r is Ok ==> final(self).houses() == old(self).houses().insert(
                *id,
                (House { is_locked: locked, ..old(self).houses()[*id] }),
            )),
            final(self).agents() == old(self).agents(),
            final(self).resources() == old(self).resources(),
            final(self).clock == old(self).clock,
            final(self).bodies == old(self).bodies,
    {
        let found = self.store.get_house(id);
        match found {
            Some(mut house) => {
                if !house.is_owner(actor) {
                    return Err(WorldError::PermissionDenied);
                }
                house.is_locked = locked;
                self.store.insert_house(house);
                proof {
                    assert(self.houses() == old(self).houses().insert(*id, house));
                    assert(self.houses().dom() =~= old(self).houses().dom());
                    lemma_wf_after_houses_changed(*old(self), *self);
                }
                Ok(())
            },
            None => Err(WorldError::NotFound),
        }
    }

    /// Lock the house behind `id` on behalf of `actor`, who must own it.
    pub fn lock_house(&mut self, id: &HouseId, actor: &AgentId) -> (r: Result<(), WorldError>)
        requires
            old(self).wf(),
        ensures
            final(self).wf(),
            r is Ok <==> (old(self).houses().dom().contains(*id)
                && old(self).houses()[*id].spec_is_owner(*actor)),
            (r is Err && !old(self).houses().dom().contains(*id) ==> r->Err_0
                == WorldError::NotFound),
            (r is Err && old(self).houses().dom().contains(*id) ==> r->Err_0
                == WorldError::PermissionDenied),
            (r is Err ==> *final(self) == *old(self)),
            (r is Ok ==> final(self).houses() == old(self).houses().insert(
                *id,
                (House { is_locked: true, ..old(self).houses()[*id] }),
            )),
            final(self).agents() == old(self).agents(),
            final(self).resources() == old(self).resources(),
            final(self).clock == old(self).clock,
            final(self).bodies == old(self).bodies,
    {
        self.set_house_locked(id, actor, true)
    }

    /// Unlock the house behind `id` on behalf of `actor`, who must own it.
    pub fn unlock_house(&mut self, id: &HouseId, actor: &AgentId) -> (r: Result<(), WorldError>)
        requires
            old(self).wf(),
        ensures
            final(self).wf(),
            r is Ok <==> (old(self).houses().dom().contains(*id)
                && old(self).houses()[*id].spec_is_owner(*actor)),
            (r is Err && !old(self).houses().dom().contains(*id) ==> r->Err_0
                == WorldError::NotFound),
            (r is Err && old(self).houses().dom().contains(*id) ==> r->Err_0
                == WorldError::PermissionDenied),
            (r is Err ==> *final(self) == *old(self)),
            (r is Ok ==> final(self).houses() == old(self).houses().insert(
                *id,
                (House { is_locked: false, ..old(self).houses()[*id] }),
            )),
            final(self).agents() == old(self).agents(),
            final(self).resources() == old(self).resources(),
            final(self).clock == old(self).clock,
            final(self).bodies == old(self).bodies,
    {
        self.set_house_locked(id, actor, false)
    }

    /// Take `amount` units from the plant behind `id`, returning what is
    /// left. A missing resource is `NotFound`; a lake, or a draw past the
    /// remaining quantity, is `InvalidState` (quantity never goes
    /// negative); either failure changes nothing. Depletion to 0 leaves
    /// the plant in the store as a valid, queryable entity.
    pub fn consume_plant(&mut self, id: &ResourceId, amount: u32) -> (r: Result<u32, WorldError>)
        requires
            old(self).wf(),
        ensures
            final(self).wf(),
            r is Ok <==> (old(self).resources().dom().contains(*id) && old(self).resources()[*id]
                is Plant && amount <= old(self).resources()[*id]->Plant_quantity),
            (r is Err && !old(self).resources().dom().contains(*id) ==> r->Err_0
                == WorldError::NotFound),
            (r is Err && old(self).resources().dom().contains(*id) ==> r->Err_0
                == WorldError::InvalidState),
            (r is Err ==> *final(self) == *old(self)),
            (r is Ok ==> r->Ok_0 == old(self).resources()[*id]->Plant_quantity - amount),
            (r is Ok ==> final(self).resources() == old(self).resources().insert(
                *id,
                (Resource::Plant {
                    id: *id,
                    position: old(self).resources()[*id]->Plant_position,
                    nutrition_milli: old(self).resources()[*id]->Plant_nutrition_milli,
                    quantity: (old(self).resources()[*id]->Plant_quantity - amount) as u32,
                }),
            )),
            (r is Ok ==> final(self).resources().dom().contains(*id)),
            final(self).agents() == old(self).agents(),
            final(self).houses() == old(self).houses(),
            final(self).clock == old(self).clock,
            final(self).bodies == old(self).bodies,
    {
        let found = self.store.get_resource(id);
        match found {
            Some(resource) => {
                match resource {
                    Resource::Plant { id: rid, position, nutrition_milli, quantity } => {
                        if amount > quantity {
                            return Err(WorldError::InvalidState);
                        }
                        let left = quantity - amount;
                        let plant = Resource::Plant {
                            id: rid,
                            position,
                            nutrition_milli,
                            quantity: left,
                        };
                        self.store.insert_resource(plant);
                        proof {
                            assert(self.resources() == old(self).resources().insert(*id, plant));
                            assert(self.resources().dom() =~= old(self).resources().dom());
                            lemma_wf_after_resources_changed(*old(self), *self);
                        }
                        Ok(left)
                    },
                    Resource::Lake { .. } => Err(WorldError::InvalidState),
                }
            },
            None => Err(WorldError::NotFound),
        }
    }

    /// Apply the backend's post-step transforms to every agent: an agent
    /// linked to a transformed body takes that body's new position and
    /// rotation; everything else is untouched.
    #[verifier::loop_isolation(false)]
    fn apply_transforms_to_agents(&mut self, transforms: &Vec<BodyTransform>)
        requires
            old(self).wf(),
        ensures
            final(self).wf(),
            final(self).agents().dom() == old(self).agents().dom(),
            forall|a: AgentId|
                #[trigger] old(self).agents().dom().contains(a) ==> final(self).agents()[a]
                    == moved_agent(old(self).agents()[a], transforms@),
            final(self).houses() == old(self).houses(),
            final(self).resources() == old(self).resources(),
            final(self).clock == old(self).clock,
            final(self).bodies == old(self).bodies,
            final(self).ground_body == old(self).ground_body,
            final(self).next_raw_id == old(self).next_raw_id,
    {
        let ids = self.store.agent_ids();
        let n = ids.len();
        let tn = transforms.len();
        for i in 0..n
            invariant
                self.store.wf(),
                self.clock == old(self).clock,
                self.bodies == old(self).bodies,
                self.ground_body == old(self).ground_body,
                self.next_raw_id == old(self).next_raw_id,
                self.houses() == old(self).houses(),
                self.resources() == old(self).resources(),
                self.agents().dom() == old(self).agents().dom(),
                forall|a: AgentId|
                    #[trigger] old(self).agents().dom().contains(a) && ids@.take(
                        i as int,
                    ).contains(a) ==> self.agents()[a] == moved_agent(
                        old(self).agents()[a],
                        transforms@,
                    ),
                forall|a: AgentId|
                    #[trigger] old(self).agents().dom().contains(a) && !ids@.take(
                        i as int,
                    ).contains(a) ==> self.agents()[a] == old(self).agents()[a],
        {
            let id = ids[i];
            proof {
                assert(ids@[i as int] == id);
                assert(ids@.contains(id));
                assert(old(self).agents().dom().contains(id));
                if ids@.take(i as int).contains(id) {
                    let j = choose|j: int|
                        0 <= j < i && ids@.take(i as int)[j] == id;
                    assert(ids@[j] == id);
                    assert(false);
                }
                assert(old(self).agent_entry_wf(id));
            }
            let found = self.store.get_agent(&id);
            let mut agent = found.unwrap();
            let ghost base = old(self).agents()[id];
            proof {
                assert(agent == base);
                assert(transforms@.take(0) =~= Seq::<BodyTransform>::empty());
                assert(moved_agent(base, transforms@.take(0)) == base);
            }
            for j in 0..tn
                invariant
                    agent == moved_agent(base, transforms@.take(j as int)),
            {
                let ghost before = agent;
                proof {
                    assert(transforms@.take(j as int + 1) =~= transforms@.take(j as int).push(
                        transforms@[j as int],
                    ));
                    lemma_moved_agent_push(base, transforms@.take(j as int), transforms@[j as int]);
                }
                let t = transforms[j];
                let linked = match agent.rigid_body_handle {
                    Some(hh) => hh == t.handle,
                    None => false,
                };
                if linked {
                    agent.position = t.position;
                    agent.rotation = t.rotation;
                }
                proof {
                    assert(agent == apply_transform(before, transforms@[j as int]));
                }
            }
            proof {
                assert(transforms@.take(tn as int) =~= transforms@);
                assert(agent == moved_agent(base, transforms@));
                lemma_moved_agent_fields(base, transforms@);
                assert(agent.id == id);
            }
            self.store.insert_agent(agent);
            proof {
                assert(self.agents().dom() =~= old(self).agents().dom());
                assert(ids@.take(i as int + 1) =~= ids@.take(i as int).push(id));
                assert forall|a: AgentId|
                    #[trigger] old(self).agents().dom().contains(a) && ids@.take(
                        i as int + 1,
                    ).contains(a) implies self.agents()[a] == moved_agent(
                    old(self).agents()[a],
                    transforms@,
                ) by {
                    if a != id {
                        assert(ids@.take(i as int).contains(a));
                    }
                }
                assert(ids@.take(i as int + 1)[i as int] == id);
                assert(ids@.take(i as int + 1).contains(id));
                assert forall|a: AgentId|
                    #[trigger] old(self).agents().dom().contains(a) && !ids@.take(
                        i as int + 1,
                    ).contains(a) implies self.agents()[a] == old(self).agents()[a] by {
                    assert(a != id);
                    if ids@.take(i as int).contains(a) {
                        let j = choose|j: int| 0 <= j < i && ids@.take(i as int)[j] == a;
                        assert(ids@.take(i as int + 1)[j] == a);
                    }
                }
            }
        }
        proof {
            assert(ids@.take(n as int) =~= ids@);
            assert forall|a: AgentId|
                #[trigger] old(self).agents().dom().contains(a) implies self.agents()[a]
                == moved_agent(old(self).agents()[a], transforms@) by {
                assert(ids@.contains(a));
            }
            assert forall|a: AgentId|
                #[trigger] self.agents().dom().contains(a) implies self.agents()[a].id
                == old(self).agents()[a].id && self.agents()[a].wf()
                && self.agents()[a].rigid_body_handle == old(self).agents()[
                a].rigid_body_handle by {
                assert(old(self).agents().dom().contains(a));
                assert(self.agents()[a] == moved_agent(old(self).agents()[a], transforms@));
                lemma_moved_agent_fields(old(self).agents()[a], transforms@);
                assert(old(self).agent_entry_wf(a));
            }
            lemma_wf_after_agents_changed(*old(self), *self);
        }
    }

    /// Decay every agent's needs by `delta_ms`; everything else is
    /// untouched.
    #[verifier::loop_isolation(false)]
    fn decay_all_agents(&mut self, delta_ms: u64)
        requires
            old(self).wf(),
        ensures
            final(self).wf(),
            final(self).agents().dom() == old(self).agents().dom(),
            forall|a: AgentId|
                #[trigger] old(self).agents().dom().contains(a) ==> final(self).agents()[a]
                    == (Agent {
                    needs: needs_updated(old(self).agents()[a].needs, delta_ms),
                    ..old(self).agents()[a]
                }),
            final(self).houses() == old(self).houses(),
            final(self).resources() == old(self).resources(),
            final(self).clock == old(self).clock,
            final(self).bodies == old(self).bodies,
            final(self).ground_body == old(self).ground_body,
            final(self).next_raw_id == old(self).next_raw_id,
    {
        let ids = self.store.agent_ids();
        let n = ids.len();
        for i in 0..n
            invariant
                self.store.wf(),
                self.clock == old(self).clock,
                self.bodies == old(self).bodies,
                self.ground_body == old(self).ground_body,
                self.next_raw_id == old(self).next_raw_id,
                self.houses() == old(self).houses(),
                self.resources() == old(self).resources(),
                self.agents().dom() == old(self).agents().dom(),
                forall|a: AgentId|
                    #[trigger] old(self).agents().dom().contains(a) && ids@.take(
                        i as int,
                    ).contains(a) ==> self.agents()[a] == (Agent {
                        needs: needs_updated(old(self).agents()[a].needs, delta_ms),
                        ..old(self).agents()[a]
                    }),
                forall|a: AgentId|
                    #[trigger] old(self).agents().dom().contains(a) && !ids@.take(
                        i as int,
                    ).contains(a) ==> self.agents()[a] == old(self).agents()[a],
        {
            let id = ids[i];
            proof {
                assert(ids@[i as int] == id);
                assert(ids@.contains(id));
                assert(old(self).agents().dom().contains(id));
                if ids@.take(i as int).contains(id) {
                    let j = choose|j: int|
                        0 <= j < i && ids@.take(i as int)[j] == id;
                    assert(ids@[j] == id);
                    assert(false);
                }
                assert(old(self).agent_entry_wf(id));
            }
            let found = self.store.get_agent(&id);
            let mut agent = found.unwrap();
            agent.update_needs(delta_ms);
            self.store.insert_agent(agent);
            proof {
                assert(self.agents().dom() =~= old(self).agents().dom());
                assert(ids@.take(i as int + 1) =~= ids@.take(i as int).push(id));
                assert forall|a: AgentId|
                    #[trigger] old(self).agents().dom().contains(a) && ids@.take(
                        i as int + 1,
                    ).contains(a) implies self.agents()[a] == (Agent {
                    needs: needs_updated(old(self).agents()[a].needs, delta_ms),
                    ..old(self).agents()[a]
                }) by {
                    if a != id {
                        assert(ids@.take(i as int).contains(a));
                    }
                }
                assert(ids@.take(i as int + 1)[i as int] == id);
                assert(ids@.take(i as int + 1).contains(id));
                assert forall|a: AgentId|
                    #[trigger] old(self).agents().dom().contains(a) && !ids@.take(
                        i as int + 1,
                    ).contains(a) implies self.agents()[a] == old(self).agents()[a] by {
                    assert(a != id);
                    if ids@.take(i as int).contains(a) {
                        let j = choose|j: int| 0 <= j < i && ids@.take(i as int)[j] == a;
                        assert(ids@.take(i as int + 1)[j] == a);
                    }
                }
            }
        }
        proof {
            assert(ids@.take(n as int) =~= ids@);
            assert forall|a: AgentId|
                #[trigger] old(self).agents().dom().contains(a) implies self.agents()[a] == (Agent {
                needs: needs_updated(old(self).agents()[a].needs, delta_ms),
                ..old(self).agents()[a]
            }) by {
                assert(ids@.contains(a));
            }
            assert forall|a: AgentId|
                #[trigger] self.agents().dom().contains(a) implies self.agents()[a].id
                == old(self).agents()[a].id && self.agents()[a].wf()
                && self.agents()[a].rigid_body_handle == old(self).agents()[
                a].rigid_body_handle by {
                assert(old(self).agents().dom().contains(a));
                assert(old(self).agent_entry_wf(a));
                crate::agents::lemma_needs_updated_bounds(old(self).agents()[a].needs, delta_ms);
            }
            lemma_wf_after_agents_changed(*old(self), *self);
        }
    }

    /// One simulation tick, in the strict three-phase order: the
    /// backend's post-step transforms are applied to the agents they
    /// address, then the clock advances by `delta_ms`, then every agent's
    /// needs decay by the same `delta_ms`.
    ///
    /// A transform naming a handle that is not live is a defect: the tick
    /// is refused with `InvalidState` before anything changes. The caller
    /// must serialize ticks: at most one `step` runs at a time.
    pub fn step(&mut self, delta_ms: u64, transforms: &Vec<BodyTransform>) -> (r: Result<
        (),
        WorldError,
    >)
        requires
            old(self).wf(),
            old(self).clock.total_ms + delta_ms <= u128::MAX,
        ensures
            final(self).wf(),
            (r is Ok <==> (forall|i: int|
                0 <= i < transforms@.len() ==> old(self).bodies.is_live(
                    #[trigger] transforms@[i].handle,
                ))),
            (r is Err ==> r->Err_0 == WorldError::InvalidState && *final(self) == *old(self)),
            (r is Ok ==> final(self).clock.total_ms == old(self).clock.total_ms + delta_ms),
            (r is Ok ==> final(self).agents().dom() == old(self).agents().dom()),
            (r is Ok ==> forall|a: AgentId|
                #[trigger] old(self).agents().dom().contains(a) ==> final(self).agents()[a]
                    == stepped_agent(old(self).agents()[a], transforms@, delta_ms)),
            final(self).houses() == old(self).houses(),
            final(self).resources() == old(self).resources(),
            final(self).bodies == old(self).bodies,
            final(self).ground_body == old(self).ground_body,
            final(self).next_id() == old(self).next_id(),
    {
        let tn = transforms.len();
        for i in 0..tn
            invariant
                *self == *old(self),
                old(self).wf(),
                tn == transforms@.len(),
                forall|j: int|
                    0 <= j < i ==> old(self).bodies.is_live(#[trigger] transforms@[j].handle),
        {
            if !self.bodies.body_is_live(transforms[i].handle) {
                return Err(WorldError::InvalidState);
            }
        }
        self.apply_transforms_to_agents(transforms);
        let ghost mid = *self;
        self.clock.advance(delta_ms);
        proof {
            assert(self.agents() == mid.agents());
            assert forall|a: AgentId|
                #[trigger] self.agents().dom().contains(a) implies self.agent_entry_wf(a) by {
                assert(mid.agents().dom().contains(a));
                assert(mid.agent_entry_wf(a));
            }
            assert(self.wf());
        }
        self.decay_all_agents(delta_ms);
        proof {
            assert forall|a: AgentId|
                #[trigger] old(self).agents().dom().contains(a) implies self.agents()[a]
                == stepped_agent(old(self).agents()[a], transforms@, delta_ms) by {
                assert(mid.agents().dom().contains(a));
                assert(mid.agents()[a] == moved_agent(old(self).agents()[a], transforms@));
                assert(self.agents()[a] == (Agent {
                    needs: needs_updated(mid.agents()[a].needs, delta_ms),
                    ..mid.agents()[a]
                }));
            }
        }
        Ok(())
    }

    /// Explicitly remove the resource behind `id` from the world: the one
    /// way a resource (a depleted plant included) ever leaves the store.
    /// Fails with `NotFound`, and changes nothing, if there is no such
    /// resource.
    pub fn remove_resource(&mut self, id: &ResourceId) -> (r: Result<Resource, WorldError>)
        requires
            old(self).wf(),
        ensures
            final(self).wf(),
            r is Ok <==> old(self).resources().dom().contains(*id),
            (r is Err ==> r->Err_0 == WorldError::NotFound && *final(self) == *old(self)),
            (r is Ok ==> r->Ok_0 == old(self).resources()[*id]),
            (r is Ok ==> final(self).resources() == old(self).resources().remove(*id)),
            final(self).agents() == old(self).agents(),
            final(self).houses() == old(self).houses(),
            final(self).clock == old(self).clock,
            final(self).bodies == old(self).bodies,
    {
        let found = self.store.get_resource(id);
        match found {
            Some(_) => {
                let taken = self.store.remove_resource(id);
                proof {
                    assert forall|rid: ResourceId|
                        #[trigger] self.resources().dom().contains(rid) implies self.resources()[
                        rid].spec_id() == rid && rid.0 < self.next_raw_id by {
                        assert(old(self).resources().dom().contains(rid));
                        assert(self.resources()[rid] == old(self).resources()[rid]);
                    }
                }
                match taken {
                    Some(resource) => Ok(resource),
                    None => Err(WorldError::NotFound),
                }
            },
            None => Err(WorldError::NotFound),
        }
    }
}

/// In a well-formed world every stored agent's needs are within their
/// bounds, whatever interleaving of ticks, spawns and despawns produced
/// it: every operation of this module both requires and re-establishes
/// `wf`, so this holds at every quiescent point.
pub proof fn lemma_world_needs_in_bounds(w: World, id: AgentId)
    requires
        w.wf(),
        w.agents().dom().contains(id),
    ensures
        w.agents()[id].needs.hunger <= crate::agents::NEED_MAX,
        w.agents()[id].needs.thirst <= crate::agents::NEED_MAX,
        w.agents()[id].needs.energy <= crate::agents::NEED_MAX,
        w.agents()[id].needs.bladder <= crate::agents::NEED_MAX,
        w.agents()[id].needs.hygiene <= crate::agents::NEED_MAX,
{
    assert(w.agent_entry_wf(id));
}

/// The identifiers of the two bootstrap agents.
pub open spec fn bootstrap_agent_ids() -> Set<AgentId> {
    set![AgentId(FIRST_KNOWN_AGENT), AgentId(SECOND_KNOWN_AGENT)]
}

/// The identifiers of the two bootstrap houses.
pub open spec fn bootstrap_house_ids() -> Set<HouseId> {
    set![HouseId(3), HouseId(4)]
}

/// The identifiers of the six bootstrap resources: the lake, then the
/// five plants.
pub open spec fn bootstrap_resource_ids() -> Set<ResourceId> {
    set![
        ResourceId(5),
        ResourceId(6),
        ResourceId(7),
        ResourceId(8),
        ResourceId(9),
        ResourceId(10),
    ]
}

/// Changing only agent values, while keeping the key set and, for every
/// agent, its identifier, well-formedness and body link, preserves the
/// world invariant.
pub proof fn lemma_wf_after_agents_changed(pre: World, post: World)
    requires
        pre.wf(),
        post.store.wf(),
        post.clock.wf(),
        post.bodies == pre.bodies,
        post.ground_body == pre.ground_body,
        post.next_raw_id == pre.next_raw_id,
        post.houses() == pre.houses(),
        post.resources() == pre.resources(),
        post.agents().dom() == pre.agents().dom(),
        forall|a: AgentId|
            #[trigger] post.agents().dom().contains(a) ==> post.agents()[a].id == pre.agents()[
                a].id && post.agents()[a].wf() && post.agents()[a].rigid_body_handle
                == pre.agents()[a].rigid_body_handle,
    ensures
        post.wf(),
{
    assert forall|a: AgentId|
        #[trigger] post.agents().dom().contains(a) implies post.agent_entry_wf(a) by {
        assert(pre.agents().dom().contains(a));
        assert(pre.agent_entry_wf(a));
    }
    assert forall|i1: AgentId, i2: AgentId|
        #![trigger post.agents()[i1], post.agents()[i2]]
        post.agents().dom().contains(i1) && post.agents().dom().contains(i2) && i1 != i2
            && post.agents()[i1].rigid_body_handle is Some
            && post.agents()[i2].rigid_body_handle is Some implies post.agents()[i1].rigid_body_handle->0
        != post.agents()[i2].rigid_body_handle->0 by {
        assert(pre.agents().dom().contains(i1));
        assert(pre.agents().dom().contains(i2));
        assert(pre.agents()[i1].rigid_body_handle == post.agents()[i1].rigid_body_handle);
        assert(pre.agents()[i2].rigid_body_handle == post.agents()[i2].rigid_body_handle);
    }
    assert forall|a: AgentId|
        #[trigger] post.agents().dom().contains(a) && post.ground_body is Some
            && post.agents()[a].rigid_body_handle is Some implies post.agents()[a].rigid_body_handle->0
        != post.ground_body->0 by {
        assert(pre.agents().dom().contains(a));
        assert(pre.agents()[a].rigid_body_handle == post.agents()[a].rigid_body_handle);
    }
    assert forall|id: HouseId|
        #[trigger] post.houses().dom().contains(id) implies post.houses()[id].id == id && id.0
        < post.next_raw_id by {
        assert(pre.houses().dom().contains(id));
        assert(post.houses()[id] == pre.houses()[id]);
    }
    assert forall|id: ResourceId|
        #[trigger] post.resources().dom().contains(id) implies post.resources()[id].spec_id() == id
        && id.0 < post.next_raw_id by {
        assert(pre.resources().dom().contains(id));
        assert(post.resources()[id] == pre.resources()[id]);
    }
}

/// Changing only house values, while keeping the key set and each
/// house's identifier, preserves the world invariant.
pub proof fn lemma_wf_after_houses_changed(pre: World, post: World)
    requires
        pre.wf(),
        post.store.wf(),
        post.clock.wf(),
        post.bodies == pre.bodies,
        post.ground_body == pre.ground_body,
        post.next_raw_id == pre.next_raw_id,
        post.agents() == pre.agents(),
        post.resources() == pre.resources(),
        post.houses().dom() == pre.houses().dom(),
        forall|id: HouseId|
            #[trigger] post.houses().dom().contains(id) ==> post.houses()[id].id == id,
    ensures
        post.wf(),
{
    assert forall|a: AgentId|
        #[trigger] post.agents().dom().contains(a) implies post.agent_entry_wf(a) by {
        assert(pre.agents().dom().contains(a));
        assert(pre.agent_entry_wf(a));
    }
    assert forall|id: HouseId|
        #[trigger] post.houses().dom().contains(id) implies post.houses()[id].id == id && id.0
        < post.next_raw_id by {
        assert(pre.houses().dom().contains(id));
    }
    assert forall|id: ResourceId|
        #[trigger] post.resources().dom().contains(id) implies post.resources()[id].spec_id() == id
        && id.0 < post.next_raw_id by {
        assert(pre.resources().dom().contains(id));
        assert(post.resources()[id] == pre.resources()[id]);
    }
}

/// Changing only resource values, while keeping the key set and each
/// resource's identifier, preserves the world invariant.
pub proof fn lemma_wf_after_resources_changed(pre: World, post: World)
    requires
        pre.wf(),
        post.store.wf(),
        post.clock.wf(),
        post.bodies == pre.bodies,
        post.ground_body == pre.ground_body,
        post.next_raw_id == pre.next_raw_id,
        post.agents() == pre.agents(),
        post.houses() == pre.houses(),
        post.resources().dom() == pre.resources().dom(),
        forall|id: ResourceId|
            #[trigger] post.resources().dom().contains(id) ==> post.resources()[id].spec_id()
                == id,
    ensures
        post.wf(),
{
    assert forall|a: AgentId|
        #[trigger] post.agents().dom().contains(a) implies post.agent_entry_wf(a) by {
        assert(pre.agents().dom().contains(a));
        assert(pre.agent_entry_wf(a));
    }
    assert forall|id: HouseId|
        #[trigger] post.houses().dom().contains(id) implies post.houses()[id].id == id && id.0
        < post.next_raw_id by {
        assert(pre.houses().dom().contains(id));
        assert(post.houses()[id] == pre.houses()[id]);
    }
    assert forall|id: ResourceId|
        #[trigger] post.resources().dom().contains(id) implies post.resources()[id].spec_id() == id
        && id.0 < post.next_raw_id by {
        assert(pre.resources().dom().contains(id));
    }
}

} // verus!
