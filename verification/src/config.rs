//! Configuration: per-signal-kind decay rates and activation thresholds,
//! portfolio allocations and market parameters.
//!
//! All fractional quantities are held in fixed point: decay rates and
//! thresholds in `SCALE` units (see `decay`), percentages in basis points
//! (one hundredth of a percent), currency in cents, and volatility readings
//! in hundredths of a point. Reading the values from a configuration file,
//! and converting them from their decimal spellings, is the embedding
//! program's concern; the policy itself is plain data held here.

use vstd::prelude::*;
use vstd::string::StringSliceAdditionalSpecFns;

verus! {

/// Decay rate for each signal kind, in `SCALE` units per second.
#[derive(Clone, Debug)]
pub struct PheromoneConfig {
    pub price_freshness_decay: u64,
    pub rebalance_opportunity_decay: u64,
    pub execution_permit_decay: u64,
    pub trade_executed_decay: u64,
}

/// Activation threshold for each signal kind, in `SCALE` units.
#[derive(Clone, Debug)]
pub struct ThresholdConfig {
    pub price_freshness: u64,
    pub rebalance_opportunity: u64,
    pub execution_permit: u64,
    pub trade_executed: u64,
}

/// One asset of a multi-asset portfolio; `target_pct` in basis points.
#[derive(Clone, Debug)]
pub struct AssetConfig {
    pub symbol: String,
    pub name: String,
    pub target_pct: u64,
}

/// Portfolio policy: asset list, or the two-asset fallback; percentages in
/// basis points, balances in cents.
#[derive(Clone, Debug)]
pub struct PortfolioConfig {
    pub assets: Vec<AssetConfig>,
    pub stocks_symbol: String,
    pub bonds_symbol: String,
    pub default_stocks_pct: u64,
    pub default_bonds_pct: u64,
    pub drift_threshold: u64,
    pub initial_balance: u64,
}

/// Market polling parameters; volatility thresholds in hundredths.
#[derive(Clone, Debug)]
pub struct MarketConfig {
    pub poll_interval_ms: u64,
    pub vix_high_threshold: u64,
    pub vix_low_threshold: u64,
    pub vix_source: String,
}

/// How often consumers sample the blackboard.
#[derive(Clone, Debug)]
pub struct AgentConfig {
    pub sniff_interval_ms: u64,
}

/// Bound on the persisted trade history.
#[derive(Clone, Debug)]
pub struct TradeLogConfig {
    pub max_entries: usize,
}

/// The whole policy, supplied once at startup and immutable afterwards.
#[derive(Clone, Debug)]
pub struct Config {
    pub pheromones: PheromoneConfig,
    pub thresholds: ThresholdConfig,
    pub portfolio: PortfolioConfig,
    pub market: MarketConfig,
    pub agent: AgentConfig,
    pub trade_log: TradeLogConfig,
}

/// Fallback symbol for the stock side of the two-asset portfolio.
pub fn default_spy() -> (r: String)
    ensures
        r@ == "SPY"@,
{
    String::from_str("SPY")
}

/// Fallback symbol for the bond side of the two-asset portfolio.
pub fn default_bnd() -> (r: String)
    ensures
        r@ == "BND"@,
{
    String::from_str("BND")
}

/// Fallback source for volatility readings.
pub fn default_vix_source() -> (r: String)
    ensures
        r@ == "simulation"@,
{
    String::from_str("simulation")
}

/// Fallback bound on the persisted trade history.
pub fn default_max_entries() -> (r: usize)
    ensures
        r == 500,
{
    500
}

impl Default for TradeLogConfig {
    fn default() -> (r: Self)
        ensures
            r.max_entries == 500,
    {
        TradeLogConfig { max_entries: default_max_entries() }
    }
}

/// What `Config::default()` returns, stated field by field.
pub open spec fn is_default_config(c: Config) -> bool {
    &&& c.pheromones.price_freshness_decay == 300_000_000
    &&& c.pheromones.rebalance_opportunity_decay == 200_000_000
    &&& c.pheromones.execution_permit_decay == 500_000_000
    &&& c.pheromones.trade_executed_decay == 100_000_000
    &&& c.thresholds.price_freshness == 700_000_000
    &&& c.thresholds.rebalance_opportunity == 600_000_000
    &&& c.thresholds.execution_permit == 500_000_000
    &&& c.thresholds.trade_executed == 300_000_000
    &&& c.portfolio.assets@.len() == 2
    &&& c.portfolio.assets@[0].symbol@ == "SPY"@
    &&& c.portfolio.assets@[0].name@ == "S&P 500 ETF"@
    &&& c.portfolio.assets@[0].target_pct == 6000
    &&& c.portfolio.assets@[1].symbol@ == "BND"@
    &&& c.portfolio.assets@[1].name@ == "Total Bond ETF"@
    &&& c.portfolio.assets@[1].target_pct == 4000
    &&& c.portfolio.stocks_symbol@ == "SPY"@
    &&& c.portfolio.bonds_symbol@ == "BND"@
    &&& c.portfolio.default_stocks_pct == 6000
    &&& c.portfolio.default_bonds_pct == 4000
    &&& c.portfolio.drift_threshold == 500
    &&& c.portfolio.initial_balance == 10_000_000
    &&& c.market.poll_interval_ms == 5000
    &&& c.market.vix_high_threshold == 2500
    &&& c.market.vix_low_threshold == 1500
    &&& c.market.vix_source@ == "simulation"@
    &&& c.agent.sniff_interval_ms == 500
    &&& c.trade_log.max_entries == 500
}

impl Default for Config {
    fn default() -> (r: Self)
        ensures
            is_default_config(r),
    {
        let mut assets: Vec<AssetConfig> = Vec::new();
        assets.push(
            AssetConfig {
                symbol: default_spy(),
                name: String::from_str("S&P 500 ETF"),
                target_pct: 6000,
            },
        );
        assets.push(
            AssetConfig {
                symbol: default_bnd(),
                name: String::from_str("Total Bond ETF"),
                target_pct: 4000,
            },
        );
        Config {
            pheromones: PheromoneConfig {
                price_freshness_decay: 300_000_000,
                rebalance_opportunity_decay: 200_000_000,
                execution_permit_decay: 500_000_000,
                trade_executed_decay: 100_000_000,
            },
            thresholds: ThresholdConfig {
                price_freshness: 700_000_000,
                rebalance_opportunity: 600_000_000,
                execution_permit: 500_000_000,
                trade_executed: 300_000_000,
            },
            portfolio: PortfolioConfig {
                assets,
                stocks_symbol: default_spy(),
                bonds_symbol: default_bnd(),
                default_stocks_pct: 6000,
                default_bonds_pct: 4000,
                drift_threshold: 500,
                initial_balance: 10_000_000,
            },
            market: MarketConfig {
                poll_interval_ms: 5000,
                vix_high_threshold: 2500,
                vix_low_threshold: 1500,
                vix_source: default_vix_source(),
            },
            agent: AgentConfig { sniff_interval_ms: 500 },
            trade_log: TradeLogConfig { max_entries: 500 },
        }
    }
}

/// Byte-for-byte equality of two slices.
fn bytes_eq(a: &[u8], b: &[u8]) -> (r: bool)
    ensures
        r <==> a@ =~= b@,
{
    if a.len() != b.len() {
        return false;
    }
    let n: usize = a.len();
    let mut i: usize = 0;
    while i < n
        invariant
            i <= n,
            n == a@.len(),
            a@.len() == b@.len(),
            forall|j: int| 0 <= j < i ==> a@[j] == b@[j],
        decreases n - i,
    {
        if a[i] != b[i] {
            return false;
        }
        i = i + 1;
    }
    true
}

/// The decay rate a kind name selects, over the name's bytes; unknown names
/// fall back to a moderate rate.
pub open spec fn decay_rate_for_name(c: Config, name: Seq<u8>) -> u64 {
    if name == "price_freshness".spec_bytes() {
        c.pheromones.price_freshness_decay
    } else if name == "rebalance_opportunity".spec_bytes() {
        c.pheromones.rebalance_opportunity_decay
    } else if name == "execution_permit".spec_bytes() {
        c.pheromones.execution_permit_decay
    } else if name == "trade_executed".spec_bytes() {
        c.pheromones.trade_executed_decay
    } else {
        300_000_000
    }
}

/// The threshold a kind name selects, over the name's bytes; unknown names
/// fall back to the midpoint.
pub open spec fn threshold_for_name(c: Config, name: Seq<u8>) -> u64 {
    if name == "price_freshness".spec_bytes() {
        c.thresholds.price_freshness
    } else if name == "rebalance_opportunity".spec_bytes() {
        c.thresholds.rebalance_opportunity
    } else if name == "execution_permit".spec_bytes() {
        c.thresholds.execution_permit
    } else if name == "trade_executed".spec_bytes() {
        c.thresholds.trade_executed
    } else {
        500_000_000
    }
}

impl Config {
    /// The portfolio's asset list: the multi-asset list when one is given,
    /// otherwise the two-asset fallback built from the legacy fields.
    pub fn assets(&self) -> (r: Vec<AssetConfig>)
        ensures
            self.portfolio.assets@.len() > 0 ==> r@ == self.portfolio.assets@,
            self.portfolio.assets@.len() == 0 ==> {
                &&& r@.len() == 2
                &&& r@[0].symbol == self.portfolio.stocks_symbol
                &&& r@[0].name@ == "Stocks"@
                &&& r@[0].target_pct == self.portfolio.default_stocks_pct
                &&& r@[1].symbol == self.portfolio.bonds_symbol
                &&& r@[1].name@ == "Bonds"@
                &&& r@[1].target_pct == self.portfolio.default_bonds_pct
            },
    {
        if self.portfolio.assets.len() > 0 {
            let n: usize = self.portfolio.assets.len();
            let mut out: Vec<AssetConfig> = Vec::new();
            let mut i: usize = 0;
            while i < n
                invariant
                    i <= n,
                    n == self.portfolio.assets@.len(),
                    out@.len() == i,
                    forall|j: int| 0 <= j < i ==> out@[j] == self.portfolio.assets@[j],
                decreases n - i,
            {
                let a = &self.portfolio.assets[i];
                out.push(
                    AssetConfig {
                        symbol: a.symbol.clone(),
                        name: a.name.clone(),
                        target_pct: a.target_pct,
                    },
                );
                i = i + 1;
            }
            proof {
                assert(out@ =~= self.portfolio.assets@);
            }
            out
        } else {
            let mut out: Vec<AssetConfig> = Vec::new();
            out.push(
                AssetConfig {
                    symbol: self.portfolio.stocks_symbol.clone(),
                    name: String::from_str("Stocks"),
                    target_pct: self.portfolio.default_stocks_pct,
                },
            );
            out.push(
                AssetConfig {
                    symbol: self.portfolio.bonds_symbol.clone(),
                    name: String::from_str("Bonds"),
                    target_pct: self.portfolio.default_bonds_pct,
                },
            );
            out
        }
    }

    /// The decay rate for a signal kind named by its storage-key suffix.
    pub fn decay_rate(&self, pheromone_type: &str) -> (r: u64)
        ensures
            r == decay_rate_for_name(*self, pheromone_type.spec_bytes()),
    {
        let name = pheromone_type.as_bytes();
        if bytes_eq(name, "price_freshness".as_bytes()) {
            self.pheromones.price_freshness_decay
        } else if bytes_eq(name, "rebalance_opportunity".as_bytes()) {
            self.pheromones.rebalance_opportunity_decay
        } else if bytes_eq(name, "execution_permit".as_bytes()) {
            self.pheromones.execution_permit_decay
        } else if bytes_eq(name, "trade_executed".as_bytes()) {
            self.pheromones.trade_executed_decay
        } else {
            300_000_000
        }
    }

    /// The activation threshold for a signal kind named by its storage-key
    /// suffix.
    pub fn threshold(&self, pheromone_type: &str) -> (r: u64)
        ensures
            r == threshold_for_name(*self, pheromone_type.spec_bytes()),
    {
        let name = pheromone_type.as_bytes();
        if bytes_eq(name, "price_freshness".as_bytes()) {
            self.thresholds.price_freshness
        } else if bytes_eq(name, "rebalance_opportunity".as_bytes()) {
            self.thresholds.rebalance_opportunity
        } else if bytes_eq(name, "execution_permit".as_bytes()) {
            self.thresholds.execution_permit
        } else if bytes_eq(name, "trade_executed".as_bytes()) {
            self.thresholds.trade_executed
        } else {
            500_000_000
        }
    }
}

} // verus!
