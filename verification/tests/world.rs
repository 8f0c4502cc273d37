use simulation_engine::agents::{AgentId, NEED_MAX, NEED_POINT};
use simulation_engine::objects::{HouseId, Resource, ResourceId};
use simulation_engine::physics::BodyTransform;
use simulation_engine::space::{Orientation, Position};
use simulation_engine::world::{World, WorldError, FIRST_KNOWN_AGENT, SECOND_KNOWN_AGENT};

#[test]
fn bootstrap_has_the_documented_counts_and_layout() {
    let w = World::create_blank_slate_world();
    assert_eq!(w.store.agent_count(), 2);
    assert_eq!(w.store.house_count(), 2);
    assert_eq!(w.store.resource_count(), 6);

    let alice = w.store.get_agent(&AgentId(FIRST_KNOWN_AGENT)).unwrap();
    assert_eq!(alice.name, "Alice");
    assert_eq!(alice.position, Position { x: 5000, y: 0, z: 5000 });
    assert_eq!(alice.rotation, Orientation { w: 1000, x: 0, y: 0, z: 0 });
    assert!(alice.rigid_body_handle.is_none());
    let bob = w.store.get_agent(&AgentId(SECOND_KNOWN_AGENT)).unwrap();
    assert_eq!(bob.name, "Bob");
    assert_eq!(bob.position, Position { x: -5000, y: 0, z: -5000 });

    let h1 = w.store.get_house(&HouseId(3)).unwrap();
    assert_eq!(h1.position, Position { x: 10_000, y: 0, z: 10_000 });
    assert_eq!(h1.color, "red");
    assert!(h1.is_owner(&AgentId(FIRST_KNOWN_AGENT)));
    assert!(!h1.is_locked);
    assert!(h1.has_door);
    let h2 = w.store.get_house(&HouseId(4)).unwrap();
    assert_eq!(h2.color, "blue");
    assert!(h2.is_owner(&AgentId(SECOND_KNOWN_AGENT)));

    match w.store.get_resource(&ResourceId(5)).unwrap() {
        Resource::Lake { position, radius_milli, .. } => {
            assert_eq!(position, Position { x: 0, y: 0, z: 0 });
            assert_eq!(radius_milli, 5000);
        },
        Resource::Plant { .. } => panic!("the origin resource must be the lake"),
    }
    let mut plant_count = 0;
    for rid in 6..=10u128 {
        match w.store.get_resource(&ResourceId(rid)).unwrap() {
            Resource::Plant { nutrition_milli, quantity, .. } => {
                assert_eq!(nutrition_milli, 20_000);
                assert_eq!(quantity, 5);
                plant_count += 1;
            },
            Resource::Lake { .. } => panic!("only one lake is expected"),
        }
    }
    assert_eq!(plant_count, 5);
    let first_plant = w.store.get_resource(&ResourceId(6)).unwrap();
    assert_eq!(*first_plant.get_position(), Position { x: 15_000, y: 0, z: 0 });
}

#[test]
fn bootstrap_is_deterministic_across_calls() {
    let a = World::create_blank_slate_world();
    let b = World::create_blank_slate_world();
    assert_eq!(a.store.agent_count(), b.store.agent_count());
    assert_eq!(a.store.house_count(), b.store.house_count());
    assert_eq!(a.store.resource_count(), b.store.resource_count());
    let mut ids_a = a.store.resource_ids();
    let mut ids_b = b.store.resource_ids();
    ids_a.sort_by_key(|r| r.0);
    ids_b.sort_by_key(|r| r.0);
    assert_eq!(ids_a, ids_b);
}

#[test]
fn house_ownership_is_identifier_equality_and_survives_mutation() {
    let mut w = World::create_blank_slate_world();
    let owner = AgentId(FIRST_KNOWN_AGENT);
    let other = AgentId(SECOND_KNOWN_AGENT);
    let house = w.store.get_house(&HouseId(3)).unwrap();
    assert!(house.is_owner(&owner));
    assert!(!house.is_owner(&other));
    // mutate the owner's other attributes and ask again
    w.set_agent_position(&owner, Position { x: 1, y: 2, z: 3 }).unwrap();
    w.step(1000, &vec![]).unwrap();
    let house_after = w.store.get_house(&HouseId(3)).unwrap();
    assert!(house_after.is_owner(&owner));
    assert!(!house_after.is_owner(&other));
}

#[test]
fn only_the_owner_may_lock_or_unlock() {
    let mut w = World::create_blank_slate_world();
    let owner = AgentId(FIRST_KNOWN_AGENT);
    let intruder = AgentId(SECOND_KNOWN_AGENT);
    assert_eq!(w.lock_house(&HouseId(3), &intruder), Err(WorldError::PermissionDenied));
    assert!(!w.store.get_house(&HouseId(3)).unwrap().is_locked);
    assert_eq!(w.lock_house(&HouseId(3), &owner), Ok(()));
    assert!(w.store.get_house(&HouseId(3)).unwrap().is_locked);
    assert_eq!(w.unlock_house(&HouseId(3), &intruder), Err(WorldError::PermissionDenied));
    assert_eq!(w.unlock_house(&HouseId(3), &owner), Ok(()));
    assert!(!w.store.get_house(&HouseId(3)).unwrap().is_locked);
    assert_eq!(w.lock_house(&HouseId(99), &owner), Err(WorldError::NotFound));
}

#[test]
fn a_depleted_plant_stays_until_explicitly_removed() {
    let mut w = World::create_blank_slate_world();
    let plant = ResourceId(6);
    assert_eq!(w.consume_plant(&plant, 5), Ok(0));
    // quantity 0 is a valid terminal state: still present and queryable
    let r = w.store.get_resource(&plant).unwrap();
    match r {
        Resource::Plant { quantity, .. } => assert_eq!(quantity, 0),
        Resource::Lake { .. } => panic!("expected the plant"),
    }
    assert_eq!(w.store.resource_count(), 6);
    // drawing past the remaining quantity is a refused defect
    assert_eq!(w.consume_plant(&plant, 1), Err(WorldError::InvalidState));
    // only an explicit removal deletes it
    assert!(w.remove_resource(&plant).is_ok());
    assert!(w.store.get_resource(&plant).is_none());
    assert_eq!(w.store.resource_count(), 5);
    assert!(matches!(w.remove_resource(&plant), Err(WorldError::NotFound)));
}

#[test]
fn consuming_a_lake_or_a_missing_resource_is_refused() {
    let mut w = World::create_blank_slate_world();
    assert_eq!(w.consume_plant(&ResourceId(5), 1), Err(WorldError::InvalidState));
    assert_eq!(w.consume_plant(&ResourceId(77), 1), Err(WorldError::NotFound));
    assert_eq!(w.store.resource_count(), 6);
}

#[test]
fn spawn_and_despawn_agents() {
    let mut w = World::new();
    let id = w.spawn_agent("Carol".to_string(), Position { x: 1, y: 2, z: 3 });
    assert_eq!(w.store.agent_count(), 1);
    let carol = w.store.get_agent(&id).unwrap();
    assert_eq!(carol.name, "Carol");
    assert_eq!(carol.position, Position { x: 1, y: 2, z: 3 });
    assert!(carol.inventory.items.is_empty());
    assert!(carol.known_locations.is_empty());
    assert_eq!(w.despawn_agent(&id), Ok(()));
    assert_eq!(w.store.agent_count(), 0);
    assert_eq!(w.despawn_agent(&id), Err(WorldError::NotFound));
}

#[test]
fn despawning_releases_the_linked_body() {
    let mut w = World::new();
    let id = w.spawn_agent("Carol".to_string(), Position { x: 0, y: 0, z: 0 });
    let h = w.attach_body(&id).unwrap();
    assert!(w.bodies.body_is_live(h));
    assert_eq!(w.store.get_agent(&id).unwrap().rigid_body_handle, Some(h));
    assert_eq!(w.despawn_agent(&id), Ok(()));
    assert!(!w.bodies.body_is_live(h));
}

#[test]
fn step_decays_every_agent_and_advances_the_clock() {
    let mut w = World::create_blank_slate_world();
    assert_eq!(w.step(60_000, &vec![]), Ok(()));
    assert_eq!(w.clock.total_ms, 60_000);
    for id in [AgentId(FIRST_KNOWN_AGENT), AgentId(SECOND_KNOWN_AGENT)] {
        let a = w.store.get_agent(&id).unwrap();
        assert_eq!(a.needs.hunger, 75 * NEED_POINT - 120_000);
        assert_eq!(a.needs.thirst, 75 * NEED_POINT - 180_000);
        assert_eq!(a.needs.energy, 90 * NEED_POINT - 60_000);
        assert_eq!(a.needs.bladder, NEED_MAX);
    }
    assert_eq!(w.store.house_count(), 2);
    assert_eq!(w.store.resource_count(), 6);
}

#[test]
fn step_applies_transforms_to_the_linked_agent_only() {
    let mut w = World::create_blank_slate_world();
    let alice = AgentId(FIRST_KNOWN_AGENT);
    let bob = AgentId(SECOND_KNOWN_AGENT);
    let h = w.attach_body(&alice).unwrap();
    let moved = BodyTransform {
        handle: h,
        position: Position { x: 7000, y: 1000, z: -2000 },
        rotation: Orientation { w: 999, x: 10, y: 0, z: 0 },
    };
    assert_eq!(w.step(1000, &vec![moved]), Ok(()));
    let a = w.store.get_agent(&alice).unwrap();
    assert_eq!(a.position, Position { x: 7000, y: 1000, z: -2000 });
    assert_eq!(a.rotation, Orientation { w: 999, x: 10, y: 0, z: 0 });
    let b = w.store.get_agent(&bob).unwrap();
    assert_eq!(b.position, Position { x: -5000, y: 0, z: -5000 });
}

#[test]
fn step_refuses_a_transform_for_a_dead_body() {
    let mut w = World::create_blank_slate_world();
    let bad = BodyTransform {
        handle: 41,
        position: Position { x: 0, y: 0, z: 0 },
        rotation: Orientation { w: 1000, x: 0, y: 0, z: 0 },
    };
    assert_eq!(w.step(1000, &vec![bad]), Err(WorldError::InvalidState));
    // nothing changed: the refused tick left the clock and agents alone
    assert_eq!(w.clock.total_ms, 0);
    let alice = w.store.get_agent(&AgentId(FIRST_KNOWN_AGENT)).unwrap();
    assert_eq!(alice.needs.hunger, 75 * NEED_POINT);
}

#[test]
fn ticks_interleaved_with_spawns_and_despawns_keep_needs_in_bounds() {
    let mut w = World::create_blank_slate_world();
    let mut spawned: Vec<AgentId> = Vec::new();
    for i in 0..600u32 {
        w.step(17, &vec![]).unwrap();
        if i % 20 == 0 {
            let id = w.spawn_agent(format!("agent-{}", i), Position { x: 0, y: 0, z: 0 });
            spawned.push(id);
        }
        if i % 50 == 25 {
            if let Some(id) = spawned.pop() {
                w.despawn_agent(&id).unwrap();
            }
        }
    }
    for id in w.store.agent_ids() {
        let a = w.store.get_agent(&id).unwrap();
        assert!(a.needs.hunger <= NEED_MAX);
        assert!(a.needs.thirst <= NEED_MAX);
        assert!(a.needs.energy <= NEED_MAX);
        assert!(a.needs.bladder <= NEED_MAX);
        assert!(a.needs.hygiene <= NEED_MAX);
    }
    assert_eq!(w.clock.total_ms, 600 * 17);
}
