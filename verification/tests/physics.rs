use driftguard::decay::SCALE;
use driftguard::physics::{Pheromone, PheromonePayload, PheromoneType};

fn scaled(v: f64) -> u64 {
    (v * SCALE as f64) as u64
}

#[test]
fn test_pheromone_decay() {
    let pheromone = Pheromone::new_at("test".to_string(), SCALE, SCALE, 0); // decay_rate = 1.0

    // At t=0, intensity should be ~1.0
    let at_zero = pheromone.intensity_at(0) as f64 / SCALE as f64;
    assert!((at_zero - 1.0).abs() < 0.01);

    // After 0.7 seconds (half-life for a unit rate), intensity should be ~0.5
    let intensity = pheromone.intensity_at(700) as f64 / SCALE as f64;
    assert!(intensity > 0.4 && intensity < 0.6, "Got intensity: {}", intensity);
}

#[test]
fn test_threshold_activation() {
    let pheromone = Pheromone::new_at("test".to_string(), SCALE, 2 * SCALE, 0); // Fast decay

    assert!(pheromone.is_active_at(scaled(0.5), 0));

    // After 500 ms of decay it should be below the 0.5 threshold
    assert!(!pheromone.is_active_at(scaled(0.5), 500));
}

#[test]
fn test_half_life_calculation() {
    let pheromone = Pheromone::new_at("test".to_string(), SCALE, scaled(0.3), 0);
    let half_life = pheromone.half_life() as f64 / 1000.0;

    // Half-life should be ~2.31 seconds for decay_rate=0.3
    assert!((half_life - 2.31).abs() < 0.1);
}

#[test]
fn strength_at_creation_is_initial() {
    let p = Pheromone::new_at("x".to_string(), SCALE, 7, 123_456);
    assert_eq!(p.intensity_at(123_456), SCALE);
    let weaker = Pheromone::new_at("x".to_string(), scaled(0.25), 5 * SCALE, 50);
    assert_eq!(weaker.intensity_at(50), scaled(0.25));
}

#[test]
fn strength_at_half_life_is_half() {
    // A unit decay rate halves in ln 2 seconds.
    let p = Pheromone::new_at("h".to_string(), SCALE, SCALE, 0);
    let hl = p.half_life();
    assert_eq!(hl, 693);
    let at_hl = p.intensity_at(hl) as f64 / SCALE as f64;
    assert!((at_hl - 0.5).abs() < 0.001, "Got {}", at_hl);
}

#[test]
fn strength_is_monotone_in_time() {
    let p = Pheromone::new_at("m".to_string(), SCALE, scaled(0.3), 0);
    let mut prev = p.intensity_at(0);
    let mut t: u64 = 0;
    while t <= 20_000 {
        let cur = p.intensity_at(t);
        assert!(cur <= prev, "rose from {} to {} at t={}", prev, cur, t);
        prev = cur;
        t += 137;
    }
}

#[test]
fn exactly_at_threshold_is_not_active() {
    let p = Pheromone::new_at("edge".to_string(), scaled(0.5), SCALE, 0);
    // At creation the strength reads exactly the initial value.
    assert_eq!(p.intensity_at(0), scaled(0.5));
    assert!(!p.is_active_at(scaled(0.5), 0));
    assert!(p.is_active_at(scaled(0.5) - 1, 0));
}

#[test]
fn readings_before_creation_are_undecayed() {
    let p = Pheromone::new_at("skew".to_string(), SCALE, SCALE, 10_000);
    assert_eq!(p.intensity_at(5_000), SCALE);
}

#[test]
fn time_until_inactive_brackets_the_threshold() {
    let p = Pheromone::new_at("t".to_string(), SCALE, SCALE, 0);
    let dt = p.time_until_inactive_at(scaled(0.5), 0).expect("still active");
    assert_eq!(dt, 694);
    assert!(p.intensity_at(dt) <= scaled(0.5));
    assert!(p.intensity_at(dt - 1) > scaled(0.5));
}

#[test]
fn time_until_inactive_none_once_below() {
    let p = Pheromone::new_at("t".to_string(), SCALE, SCALE, 0);
    assert_eq!(p.time_until_inactive_at(scaled(0.5), 10_000), None);
    // Already at the threshold exactly: not active, so no time remains.
    let q = Pheromone::new_at("q".to_string(), scaled(0.5), SCALE, 0);
    assert_eq!(q.time_until_inactive_at(scaled(0.5), 0), None);
}

#[test]
fn age_is_measured_from_creation() {
    let p = Pheromone::new_at("a".to_string(), SCALE, SCALE, 2_000);
    assert_eq!(p.age_secs_at(9_500), 7);
    assert_eq!(p.age_secs_at(1_000), 0);
}

#[test]
fn payload_wraps_data_with_signal() {
    let p = Pheromone::new_at("pl".to_string(), SCALE, SCALE, 0);
    let env = PheromonePayload::new(vec![1u8, 2, 3], p);
    assert_eq!(env.data, vec![1u8, 2, 3]);
    assert_eq!(env.intensity_at(0), SCALE);
    assert!(env.is_fresh_at(scaled(0.9), 0));
    assert!(!env.is_fresh_at(scaled(0.9), 700));
}

#[test]
fn clock_based_readings_run() {
    // The wall-clock variants promise only what holds at some instant; this
    // exercises that they run and stay in range.
    let p = Pheromone::with_decay("now".to_string(), SCALE);
    assert!(p.current_intensity() <= SCALE);
    let _ = p.is_active(scaled(0.5));
    let _ = p.age_secs();
    let _ = p.time_until_inactive(scaled(0.5));
}

#[test]
fn registry_keys_and_labels() {
    assert_eq!(PheromoneType::PriceFreshness.key(), "pheromone:price_freshness");
    assert_eq!(PheromoneType::RebalanceOpportunity.key(), "pheromone:rebalance_opportunity");
    assert_eq!(PheromoneType::ExecutionPermit.key(), "pheromone:execution_permit");
    assert_eq!(PheromoneType::TradeExecuted.key(), "pheromone:trade_executed");
    assert_eq!(PheromoneType::PriceFreshness.label(), "Price Freshness");
    assert_eq!(PheromoneType::RebalanceOpportunity.label(), "Rebalance Opportunity");
    assert_eq!(PheromoneType::ExecutionPermit.label(), "Execution Permit");
    assert_eq!(PheromoneType::TradeExecuted.label(), "Trade Executed");
    let all = PheromoneType::all();
    assert_eq!(
        all,
        vec![
            PheromoneType::PriceFreshness,
            PheromoneType::RebalanceOpportunity,
            PheromoneType::ExecutionPermit,
            PheromoneType::TradeExecuted,
        ]
    );
}
