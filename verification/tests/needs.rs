use simulation_engine::agents::{
    Need, PhysiologicalNeeds, ENERGY_CRITICAL, NEED_MAX, NEED_POINT, START_ENERGY, START_HUNGER,
    START_THIRST, SUSTENANCE_CRITICAL,
};

fn points(p: u64) -> u64 {
    p * NEED_POINT
}

#[test]
fn new_needs_start_at_documented_levels() {
    let n = PhysiologicalNeeds::new();
    assert_eq!(n.hunger, points(75));
    assert_eq!(n.thirst, points(75));
    assert_eq!(n.energy, points(90));
    assert_eq!(n.bladder, points(100));
    assert_eq!(n.hygiene, points(100));
    assert!(!n.shelter);
    assert_eq!(START_HUNGER, points(75));
    assert_eq!(START_THIRST, points(75));
    assert_eq!(START_ENERGY, points(90));
}

#[test]
fn one_minute_of_decay_is_exact() {
    let mut n = PhysiologicalNeeds::new();
    n.update(60_000);
    assert_eq!(n.hunger, points(75) - points(1));
    assert_eq!(n.thirst, points(75) - 3 * 60_000);
    assert_eq!(n.energy, points(90) - 60_000);
    assert_eq!(n.bladder, points(100));
    assert_eq!(n.hygiene, points(100));
}

#[test]
fn decay_clamps_at_zero_and_stays_in_bounds() {
    let mut n = PhysiologicalNeeds::new();
    n.update(u64::MAX);
    assert_eq!(n.hunger, 0);
    assert_eq!(n.thirst, 0);
    assert_eq!(n.energy, 0);
    n.update(1);
    assert_eq!(n.thirst, 0);
}

#[test]
fn bounds_hold_over_any_delta_sequence() {
    let deltas: [u64; 9] = [0, 1, 17, 1000, 60_000, 3, 86_400_000, 5, 999];
    let mut n = PhysiologicalNeeds::new();
    let mut prev = n.clone();
    for d in deltas {
        n.update(d);
        assert!(n.hunger <= NEED_MAX && n.thirst <= NEED_MAX && n.energy <= NEED_MAX);
        assert!(n.hunger <= prev.hunger);
        assert!(n.thirst <= prev.thirst);
        assert!(n.energy <= prev.energy);
        assert_eq!(n.bladder, prev.bladder);
        assert_eq!(n.hygiene, prev.hygiene);
        prev = n.clone();
    }
}

#[test]
fn thirst_decays_fastest() {
    let mut n = PhysiologicalNeeds::new();
    n.update(10_000);
    let hunger_drop = points(75) - n.hunger;
    let thirst_drop = points(75) - n.thirst;
    let energy_drop = points(90) - n.energy;
    assert!(thirst_drop > hunger_drop);
    assert!(hunger_drop > energy_drop);
}

#[test]
fn critical_need_prefers_water_over_food_and_sleep() {
    let n = PhysiologicalNeeds {
        hunger: points(10),
        thirst: points(15),
        energy: points(5),
        bladder: points(100),
        hygiene: points(100),
        shelter: false,
    };
    assert_eq!(n.get_critical_need(), Some(Need::Water));
}

#[test]
fn critical_need_checks_hunger_then_energy() {
    let hungry = PhysiologicalNeeds {
        hunger: points(10),
        thirst: points(50),
        energy: points(5),
        bladder: points(100),
        hygiene: points(100),
        shelter: false,
    };
    assert_eq!(hungry.get_critical_need(), Some(Need::Food));
    let tired = PhysiologicalNeeds {
        hunger: points(50),
        thirst: points(50),
        energy: points(5),
        bladder: points(100),
        hygiene: points(100),
        shelter: false,
    };
    assert_eq!(tired.get_critical_need(), Some(Need::Sleep));
}

#[test]
fn critical_need_thresholds_are_strict() {
    let at_threshold = PhysiologicalNeeds {
        hunger: SUSTENANCE_CRITICAL,
        thirst: SUSTENANCE_CRITICAL,
        energy: ENERGY_CRITICAL,
        bladder: points(100),
        hygiene: points(100),
        shelter: false,
    };
    assert_eq!(at_threshold.get_critical_need(), None);
    let just_under = PhysiologicalNeeds {
        hunger: points(50),
        thirst: SUSTENANCE_CRITICAL - 1,
        energy: points(50),
        bladder: points(100),
        hygiene: points(100),
        shelter: false,
    };
    assert_eq!(just_under.get_critical_need(), Some(Need::Water));
}
