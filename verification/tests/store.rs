use simulation_engine::agents::{Agent, AgentId};
use simulation_engine::objects::{House, HouseId, Resource, ResourceAppearance, ResourceId};
use simulation_engine::space::Position;
use simulation_engine::store::EntityStore;

fn agent(raw: u128, name: &str) -> Agent {
    Agent::new(AgentId(raw), name.to_string(), Position { x: 0, y: 0, z: 0 })
}

#[test]
fn a_new_store_is_empty() {
    let s = EntityStore::new();
    assert_eq!(s.agent_count(), 0);
    assert_eq!(s.house_count(), 0);
    assert_eq!(s.resource_count(), 0);
    assert!(s.get_agent(&AgentId(1)).is_none());
}

#[test]
fn insert_then_get_returns_the_stored_entity() {
    let mut s = EntityStore::new();
    s.insert_agent(agent(7, "Dora"));
    let got = s.get_agent(&AgentId(7)).unwrap();
    assert_eq!(got.name, "Dora");
    assert_eq!(got.id, AgentId(7));
    assert!(s.get_agent(&AgentId(8)).is_none());
}

#[test]
fn reinserting_an_identifier_replaces_the_entry() {
    let mut s = EntityStore::new();
    s.insert_agent(agent(7, "Dora"));
    s.insert_agent(agent(7, "Dora the Second"));
    assert_eq!(s.agent_count(), 1);
    assert_eq!(s.get_agent(&AgentId(7)).unwrap().name, "Dora the Second");
}

#[test]
fn remove_takes_the_entry_out() {
    let mut s = EntityStore::new();
    s.insert_agent(agent(1, "Ann"));
    s.insert_agent(agent(2, "Ben"));
    let removed = s.remove_agent(&AgentId(1)).unwrap();
    assert_eq!(removed.name, "Ann");
    assert_eq!(s.agent_count(), 1);
    assert!(s.get_agent(&AgentId(1)).is_none());
    assert!(s.remove_agent(&AgentId(1)).is_none());
}

#[test]
fn iteration_yields_each_identifier_exactly_once() {
    let mut s = EntityStore::new();
    for raw in 1..=50u128 {
        s.insert_agent(agent(raw, "n"));
    }
    let mut ids = s.agent_ids();
    assert_eq!(ids.len(), 50);
    ids.sort_by_key(|a| a.0);
    for (i, id) in ids.iter().enumerate() {
        assert_eq!(id.0, (i + 1) as u128);
    }
}

#[test]
fn the_three_collections_are_independent() {
    let mut s = EntityStore::new();
    s.insert_agent(agent(1, "Ann"));
    s.insert_house(House::new(
        HouseId(1),
        Position { x: 0, y: 0, z: 0 },
        "green".to_string(),
        None,
    ));
    s.insert_resource(Resource::Lake {
        id: ResourceId(1),
        position: Position { x: 0, y: 0, z: 0 },
        radius_milli: 100,
    });
    assert_eq!(s.agent_count(), 1);
    assert_eq!(s.house_count(), 1);
    assert_eq!(s.resource_count(), 1);
    s.remove_agent(&AgentId(1));
    assert_eq!(s.house_count(), 1);
    assert_eq!(s.resource_count(), 1);
}

#[test]
fn a_new_house_has_the_documented_defaults() {
    let h = House::new(
        HouseId(9),
        Position { x: 1, y: 2, z: 3 },
        "yellow".to_string(),
        Some(AgentId(4)),
    );
    assert_eq!(h.id, HouseId(9));
    assert_eq!(h.size, "large");
    assert_eq!(h.shape, "rectangular structure");
    assert!(h.has_door);
    assert!(!h.is_locked);
    assert_eq!(h.interior_temperature_milli, 20_000);
    assert!(h.is_owner(&AgentId(4)));
    assert!(!h.is_owner(&AgentId(5)));
    let unowned = House::new(
        HouseId(10),
        Position { x: 0, y: 0, z: 0 },
        "grey".to_string(),
        None,
    );
    assert!(!unowned.is_owner(&AgentId(4)));
}

#[test]
fn resource_appearance_is_derived_from_the_variant() {
    let lake = Resource::Lake {
        id: ResourceId(1),
        position: Position { x: 0, y: 0, z: 0 },
        radius_milli: 5000,
    };
    let la: ResourceAppearance = lake.get_appearance();
    assert_eq!(la.shape, "large blue circle");
    assert_eq!(la.color, "blue");
    assert_eq!(la.size, "large");
    assert_eq!(la.surface.as_deref(), Some("reflective"));
    assert_eq!(la.resource_type, "lake");

    let plant = Resource::Plant {
        id: ResourceId(2),
        position: Position { x: 1, y: 0, z: 0 },
        nutrition_milli: 20_000,
        quantity: 5,
    };
    let pa = plant.get_appearance();
    assert_eq!(pa.shape, "small green cluster");
    assert_eq!(pa.color, "green");
    assert_eq!(pa.size, "small");
    assert!(pa.surface.is_none());
    assert_eq!(pa.resource_type, "plant");
    assert_eq!(*plant.get_id(), ResourceId(2));
    assert_eq!(*lake.get_position(), Position { x: 0, y: 0, z: 0 });
}
