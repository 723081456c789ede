use driftguard::config::{
    default_bnd, default_max_entries, default_spy, default_vix_source, AssetConfig, Config,
    TradeLogConfig,
};
use driftguard::physics::PheromoneType;

#[test]
fn default_policy_values() {
    let c = Config::default();
    assert_eq!(c.pheromones.price_freshness_decay, 300_000_000);
    assert_eq!(c.pheromones.rebalance_opportunity_decay, 200_000_000);
    assert_eq!(c.pheromones.execution_permit_decay, 500_000_000);
    assert_eq!(c.pheromones.trade_executed_decay, 100_000_000);
    assert_eq!(c.thresholds.price_freshness, 700_000_000);
    assert_eq!(c.thresholds.rebalance_opportunity, 600_000_000);
    assert_eq!(c.thresholds.execution_permit, 500_000_000);
    assert_eq!(c.thresholds.trade_executed, 300_000_000);
    assert_eq!(c.portfolio.drift_threshold, 500);
    assert_eq!(c.portfolio.initial_balance, 10_000_000);
    assert_eq!(c.market.poll_interval_ms, 5000);
    assert_eq!(c.market.vix_high_threshold, 2500);
    assert_eq!(c.market.vix_low_threshold, 1500);
    assert_eq!(c.market.vix_source, "simulation");
    assert_eq!(c.agent.sniff_interval_ms, 500);
    assert_eq!(c.trade_log.max_entries, 500);
}

#[test]
fn default_helpers() {
    assert_eq!(default_spy(), "SPY");
    assert_eq!(default_bnd(), "BND");
    assert_eq!(default_vix_source(), "simulation");
    assert_eq!(default_max_entries(), 500);
    assert_eq!(TradeLogConfig::default().max_entries, 500);
}

#[test]
fn assets_prefers_the_multi_asset_list() {
    let c = Config::default();
    let assets = c.assets();
    assert_eq!(assets.len(), 2);
    assert_eq!(assets[0].symbol, "SPY");
    assert_eq!(assets[0].name, "S&P 500 ETF");
    assert_eq!(assets[0].target_pct, 6000);
    assert_eq!(assets[1].symbol, "BND");
    assert_eq!(assets[1].target_pct, 4000);
}

#[test]
fn assets_falls_back_to_two_asset_legacy() {
    let mut c = Config::default();
    c.portfolio.assets = Vec::new();
    c.portfolio.stocks_symbol = "QQQ".to_string();
    c.portfolio.bonds_symbol = "AGG".to_string();
    c.portfolio.default_stocks_pct = 7000;
    c.portfolio.default_bonds_pct = 3000;
    let assets = c.assets();
    assert_eq!(assets.len(), 2);
    assert_eq!(assets[0].symbol, "QQQ");
    assert_eq!(assets[0].name, "Stocks");
    assert_eq!(assets[0].target_pct, 7000);
    assert_eq!(assets[1].symbol, "AGG");
    assert_eq!(assets[1].name, "Bonds");
    assert_eq!(assets[1].target_pct, 3000);
}

#[test]
fn assets_copies_a_custom_list() {
    let mut c = Config::default();
    c.portfolio.assets = vec![AssetConfig {
        symbol: "IWM".to_string(),
        name: "Russell 2000".to_string(),
        target_pct: 10_000,
    }];
    let assets = c.assets();
    assert_eq!(assets.len(), 1);
    assert_eq!(assets[0].symbol, "IWM");
    assert_eq!(assets[0].name, "Russell 2000");
    assert_eq!(assets[0].target_pct, 10_000);
}

#[test]
fn policy_lookup_by_kind_name() {
    let c = Config::default();
    assert_eq!(c.decay_rate("price_freshness"), 300_000_000);
    assert_eq!(c.decay_rate("rebalance_opportunity"), 200_000_000);
    assert_eq!(c.decay_rate("execution_permit"), 500_000_000);
    assert_eq!(c.decay_rate("trade_executed"), 100_000_000);
    assert_eq!(c.threshold("price_freshness"), 700_000_000);
    assert_eq!(c.threshold("rebalance_opportunity"), 600_000_000);
    assert_eq!(c.threshold("execution_permit"), 500_000_000);
    assert_eq!(c.threshold("trade_executed"), 300_000_000);
}

#[test]
fn per_kind_policy_resolution() {
    let mut c = Config::default();
    c.pheromones.trade_executed_decay = 42;
    c.thresholds.execution_permit = 123;
    assert_eq!(PheromoneType::PriceFreshness.decay_rate(&c), 300_000_000);
    assert_eq!(PheromoneType::RebalanceOpportunity.decay_rate(&c), 200_000_000);
    assert_eq!(PheromoneType::ExecutionPermit.decay_rate(&c), 500_000_000);
    assert_eq!(PheromoneType::TradeExecuted.decay_rate(&c), 42);
    assert_eq!(PheromoneType::PriceFreshness.threshold(&c), 700_000_000);
    assert_eq!(PheromoneType::RebalanceOpportunity.threshold(&c), 600_000_000);
    assert_eq!(PheromoneType::ExecutionPermit.threshold(&c), 123);
    assert_eq!(PheromoneType::TradeExecuted.threshold(&c), 300_000_000);
}

#[test]
fn policy_lookup_of_unknown_name_falls_back() {
    let c = Config::default();
    assert_eq!(c.decay_rate("sentiment"), 300_000_000);
    assert_eq!(c.threshold("sentiment"), 500_000_000);
}
