use driftguard::blackboard::{Blackboard, PheromoneAction, EVENT_CAPACITY};
use driftguard::config::Config;
use driftguard::decay::SCALE;
use driftguard::physics::PheromoneType;

fn board() -> Blackboard {
    Blackboard::new(Config::default()).expect("default policy is usable")
}

fn scaled(v: f64) -> u64 {
    (v * SCALE as f64) as u64
}

#[test]
fn deposit_then_sense_round_trip() {
    let mut b = board();
    b.deposit_at(PheromoneType::PriceFreshness, vec![10, 20, 30], 1_000);
    let got = b.sniff_at(PheromoneType::PriceFreshness, 1_000);
    assert_eq!(got, Some(vec![10, 20, 30]));
}

#[test]
fn overwrite_is_last_write_wins() {
    let mut b = board();
    b.deposit_at(PheromoneType::TradeExecuted, vec![b'A'], 1_000);
    b.deposit_at(PheromoneType::TradeExecuted, vec![b'B'], 1_001);
    let got = b.sniff_at(PheromoneType::TradeExecuted, 1_001);
    assert_eq!(got, Some(vec![b'B']));

    // Even two deposits at the very same instant leave only the second.
    b.deposit_at(PheromoneType::TradeExecuted, vec![b'C'], 2_000);
    b.deposit_at(PheromoneType::TradeExecuted, vec![b'D'], 2_000);
    assert_eq!(b.sniff_at(PheromoneType::TradeExecuted, 2_000), Some(vec![b'D']));
}

#[test]
fn never_deposited_senses_as_none() {
    let mut b = board();
    assert_eq!(b.sniff_at(PheromoneType::ExecutionPermit, 5_000), None);
    // And no event is emitted for an empty slot.
    assert!(b.take_events().is_empty());
}

#[test]
fn decay_then_silence() {
    // Policy: half-life of one second for price freshness, threshold 0.9.
    let mut config = Config::default();
    config.pheromones.price_freshness_decay = 693_147_181;
    config.thresholds.price_freshness = scaled(0.9);
    let mut b = Blackboard::new(config).unwrap();

    b.deposit_at(PheromoneType::PriceFreshness, vec![1], 0);
    // Well within the first tenth of a half-life the signal is above 0.9.
    assert_eq!(b.sniff_at(PheromoneType::PriceFreshness, 100), Some(vec![1]));
    // Two half-lives later it has fallen to about a quarter: silence.
    assert_eq!(b.sniff_at(PheromoneType::PriceFreshness, 2_000), None);
    // The stale envelope stays in place: intensity still reads its strength.
    let quarter = b.get_intensity_at(PheromoneType::PriceFreshness, 2_000) as f64 / SCALE as f64;
    assert!((quarter - 0.25).abs() < 0.001, "Got {}", quarter);
}

#[test]
fn interleaved_deposits_leave_one_whole_payload() {
    // Deposits racing on one kind, in whatever order the store serialised
    // them: exactly one payload is visible afterwards, whole.
    let mut b = board();
    let issued: Vec<Vec<u8>> = (0u8..10).map(|i| vec![i, i, i]).collect();
    for (i, payload) in issued.iter().enumerate() {
        b.deposit_at(PheromoneType::RebalanceOpportunity, payload.clone(), 1_000 + i as u64);
    }
    let got = b
        .sniff_at(PheromoneType::RebalanceOpportunity, 1_009)
        .expect("just deposited");
    assert!(issued.contains(&got));
    assert_eq!(got, issued[9]);
}

#[test]
fn clear_all_empties_every_slot() {
    let mut b = board();
    b.deposit_at(PheromoneType::PriceFreshness, vec![1], 0);
    b.deposit_at(PheromoneType::RebalanceOpportunity, vec![2], 0);
    b.deposit_at(PheromoneType::ExecutionPermit, vec![3], 0);
    b.deposit_at(PheromoneType::TradeExecuted, vec![4], 0);
    b.clear_all();
    for kind in PheromoneType::all() {
        assert_eq!(b.sniff_at(kind, 0), None);
        assert_eq!(b.get_intensity_at(kind, 0), 0);
    }
}

#[test]
fn intensity_reads_without_gating() {
    let mut b = board();
    assert_eq!(b.get_intensity_at(PheromoneType::PriceFreshness, 0), 0);
    b.deposit_at(PheromoneType::PriceFreshness, vec![9], 0);
    assert_eq!(b.get_intensity_at(PheromoneType::PriceFreshness, 0), SCALE);
    // Decayed far below the threshold, the numeric intensity still reads.
    let later = b.get_intensity_at(PheromoneType::PriceFreshness, 20_000);
    assert!(later > 0 && later < scaled(0.01));
}

#[test]
fn all_intensities_in_registry_order() {
    let mut b = board();
    b.deposit_at(PheromoneType::ExecutionPermit, vec![1], 500);
    let all = b.get_all_intensities_at(500);
    assert_eq!(all.len(), 4);
    assert_eq!(all[0].0, "Price Freshness");
    assert_eq!(all[1].0, "Rebalance Opportunity");
    assert_eq!(all[2].0, "Execution Permit");
    assert_eq!(all[3].0, "Trade Executed");
    assert_eq!(all[0].1, 0);
    assert_eq!(all[2].1, SCALE);
}

#[test]
fn events_report_deposit_sense_and_decay() {
    let mut b = board();
    b.deposit_at(PheromoneType::PriceFreshness, vec![5], 0);
    let _ = b.sniff_at(PheromoneType::PriceFreshness, 0);
    let _ = b.sniff_at(PheromoneType::PriceFreshness, 60_000);
    let events = b.take_events();
    assert_eq!(events.len(), 3);
    assert_eq!(events[0].pheromone_type, "Price Freshness");
    assert_eq!(events[0].action, PheromoneAction::Deposited);
    assert_eq!(events[0].intensity, SCALE);
    assert_eq!(events[1].action, PheromoneAction::Sniffed);
    assert_eq!(events[1].intensity, SCALE);
    assert_eq!(events[2].action, PheromoneAction::Decayed);
    assert!(events[2].intensity < scaled(0.7));
    // Drained means drained.
    assert!(b.take_events().is_empty());
}

#[test]
fn full_event_buffer_drops_new_events() {
    let mut b = board();
    for i in 0..(EVENT_CAPACITY + 20) {
        b.deposit_at(PheromoneType::TradeExecuted, vec![i as u8], i as u64);
    }
    let events = b.take_events();
    assert_eq!(events.len(), EVENT_CAPACITY);
    for e in &events {
        assert_eq!(e.action, PheromoneAction::Deposited);
    }
}

#[test]
fn zero_decay_rate_is_rejected_at_construction() {
    let mut config = Config::default();
    config.pheromones.execution_permit_decay = 0;
    let err = match Blackboard::new(config) {
        Ok(_) => panic!("a never-fading policy must be rejected"),
        Err(e) => e,
    };
    assert_eq!(err.kind, PheromoneType::ExecutionPermit);
}

#[test]
fn config_is_kept_as_supplied() {
    let b = board();
    assert_eq!(b.config().thresholds.price_freshness, scaled(0.7));
    assert_eq!(b.config().pheromones.trade_executed_decay, scaled(0.1));
}

#[test]
fn clock_based_operations_run() {
    let mut b = board();
    b.deposit(PheromoneType::PriceFreshness, vec![1, 2]);
    // Deposited a moment ago: fresh for any threshold below full strength.
    assert_eq!(b.sniff(PheromoneType::PriceFreshness), Some(vec![1, 2]));
    assert!(b.get_intensity(PheromoneType::PriceFreshness) > scaled(0.5));
    let all = b.get_all_intensities();
    assert_eq!(all.len(), 4);
}
