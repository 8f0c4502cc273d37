use simulation_engine::clock::{SimulationClock, DAY_MS};

#[test]
fn a_new_clock_is_at_zero() {
    let c = SimulationClock::new();
    assert_eq!(c.total_ms, 0);
    assert_eq!(c.day_phase_millis(), 0);
    assert_eq!(c.day_cycle_milli(), 0);
}

#[test]
fn half_a_day_is_half_a_cycle() {
    let mut c = SimulationClock::new();
    c.advance(43_200_000);
    assert_eq!(c.day_phase_millis(), 43_200_000);
    assert_eq!(c.day_cycle_milli(), 500);
}

#[test]
fn a_full_cycle_returns_the_phase_to_its_start() {
    let mut c = SimulationClock::new();
    c.advance(5_000_123);
    let phase = c.day_phase_millis();
    c.advance(DAY_MS);
    assert_eq!(c.day_phase_millis(), phase);
    c.advance(DAY_MS);
    c.advance(DAY_MS);
    assert_eq!(c.day_phase_millis(), phase);
}

#[test]
fn the_phase_is_a_pure_function_of_cumulative_time() {
    let mut a = SimulationClock::new();
    let mut b = SimulationClock::new();
    a.advance(100_000);
    a.advance(200_000);
    b.advance(50_000);
    b.advance(250_000);
    assert_eq!(a.total_ms, b.total_ms);
    assert_eq!(a.day_phase_millis(), b.day_phase_millis());
}

#[test]
fn cumulative_time_accumulates_exactly() {
    let mut c = SimulationClock::new();
    for _ in 0..1000 {
        c.advance(17);
    }
    assert_eq!(c.total_ms, 17_000);
    assert_eq!(c.day_phase_millis(), 17_000);
}

#[test]
fn the_phase_wraps_within_a_day() {
    let mut c = SimulationClock::new();
    c.advance(DAY_MS + 1);
    assert_eq!(c.day_phase_millis(), 1);
    assert!(c.day_phase_millis() < DAY_MS);
}
