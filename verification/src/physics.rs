//! The decaying-signal model: each deposited signal ("pheromone") carries its
//! creation instant and decay constant, and its current strength is a pure
//! function of its age, recomputed on every read — never stored, never
//! updated by a timer. Strength follows `I(t) = I0 * e^(-rate * t)` in the
//! fixed-point realisation of `decay`, clamped to the unit range.

use crate::config::Config;
use crate::decay::{
    decay_factor, decay_exponent, elapsed_ms_of, lemma_decay_factor_antitone,
    lemma_decay_factor_le_scale, lemma_factor_at_ln2, lemma_factor_near_ln2,
    lemma_strength_antitone, lemma_strength_at_zero, mul_fp, strength_exec, strength_spec, CUTOFF,
    SCALE,
};
use vstd::arithmetic::div_mod::{
    lemma_div_is_ordered, lemma_div_multiples_vanish, lemma_fundamental_div_mod,
};
use vstd::prelude::*;

verus! {

/// `ln 2` in `SCALE` units; a signal's strength halves every
/// `LN2_SCALED / decay_rate` seconds.
pub const LN2_SCALED: u64 = 693_147_181;

/// Relies on chrono's `Utc::now` composed with `DateTime::timestamp_millis`:
/// the current wall-clock instant as milliseconds since the Unix epoch,
/// non-negative for any clock set on or after 1970 (chrono stops the process
/// if the system clock reads earlier than that).
#[verifier::external_body]
fn now_millis_raw() -> (t: i64) {
    chrono::Utc::now().timestamp_millis()
}

/// The current wall-clock instant in milliseconds since the Unix epoch;
/// clock readings before the epoch are floored to it. Nothing relates two
/// readings: time is an input of the model, and every property of this crate
/// is stated against an explicit instant.
pub fn now_millis() -> u64 {
    let t: i64 = now_millis_raw();
    if t < 0 {
        0
    } else {
        t as u64
    }
}

/// A time-decaying signal: an immutable decay descriptor. Intensity is in
/// `SCALE` units (full strength = `SCALE`), the decay rate in `SCALE` units
/// per second, the creation instant in Unix milliseconds.
#[derive(Clone, Debug)]
pub struct Pheromone {
    /// Intensity at the moment of creation, in `SCALE` units.
    pub initial_intensity: u64,
    /// Decay rate, in `SCALE` units per second; larger means faster decay.
    pub decay_rate: u64,
    /// Creation instant, in Unix milliseconds.
    pub created_at_ms: u64,
    /// Human-readable label, diagnostic only.
    pub label: String,
}

impl Pheromone {
    /// A well-formed signal decays (a zero rate would never fade and is
    /// rejected at construction) and starts no stronger than full strength.
    pub open spec fn wf(self) -> bool {
        &&& 1 <= self.decay_rate
        &&& self.initial_intensity <= SCALE
    }

    /// Strength after `elapsed` milliseconds of age.
    pub open spec fn strength_after(self, elapsed: nat) -> nat {
        strength_spec(self.initial_intensity as nat, self.decay_rate as nat, elapsed)
    }

    /// Strength read at instant `now_ms` (instants before creation read the
    /// undecayed strength).
    pub open spec fn strength_at(self, now_ms: u64) -> nat {
        self.strength_after(elapsed_ms_of(self.created_at_ms, now_ms))
    }

    /// Create a signal with the given intensity and decay rate, stamped with
    /// the given creation instant.
    pub fn new_at(label: String, intensity: u64, decay_rate: u64, created_at_ms: u64) -> (r: Self)
        requires
            1 <= decay_rate,
        ensures
            r == (Pheromone {
                initial_intensity: intensity,
                decay_rate,
                created_at_ms,
                label,
            }),
    {
        Pheromone { initial_intensity: intensity, decay_rate, created_at_ms, label }
    }

    /// Create a signal with the given intensity and decay rate, stamped with
    /// the current wall-clock instant.
    pub fn new(label: String, intensity: u64, decay_rate: u64) -> (r: Self)
        requires
            1 <= decay_rate,
        ensures
            r.initial_intensity == intensity,
            r.decay_rate == decay_rate,
            r.label == label,
    {
        let now: u64 = now_millis();
        Pheromone::new_at(label, intensity, decay_rate, now)
    }

    /// Create a full-strength signal with the given decay rate, stamped with
    /// the given creation instant.
    pub fn with_decay_at(label: String, decay_rate: u64, created_at_ms: u64) -> (r: Self)
        requires
            1 <= decay_rate,
        ensures
            r == (Pheromone {
                initial_intensity: SCALE,
                decay_rate,
                created_at_ms,
                label,
            }),
            r.wf(),
    {
        Pheromone::new_at(label, SCALE, decay_rate, created_at_ms)
    }

    /// Create a full-strength signal with the given decay rate, stamped with
    /// the current wall-clock instant.
    pub fn with_decay(label: String, decay_rate: u64) -> (r: Self)
        requires
            1 <= decay_rate,
        ensures
            r.initial_intensity == SCALE,
            r.decay_rate == decay_rate,
            r.label == label,
            r.wf(),
    {
        Pheromone::new(label, SCALE, decay_rate)
    }

    /// Current strength at the given instant: `I0 * e^(-rate * age)` in
    /// `SCALE` units, clamped to the unit range.
    pub fn intensity_at(&self, now_ms: u64) -> (r: u64)
        ensures
            r == self.strength_at(now_ms),
            r <= SCALE,
    {
        let elapsed: u64 = if now_ms >= self.created_at_ms {
            now_ms - self.created_at_ms
        } else {
            0
        };
        strength_exec(self.initial_intensity, self.decay_rate, elapsed)
    }

    /// Current strength at the wall clock's present reading.
    pub fn current_intensity(&self) -> (r: u64)
        ensures
            r <= SCALE,
            exists|now_ms: u64| r == self.strength_at(now_ms),
    {
        let now: u64 = now_millis();
        let r = self.intensity_at(now);
        proof {
            assert(r == self.strength_at(now));
        }
        r
    }

    /// Whether the signal is still active at the given instant: strictly
    /// above the threshold — a signal exactly at the threshold is not active.
    pub fn is_active_at(&self, threshold: u64, now_ms: u64) -> (r: bool)
        ensures
            r == (self.strength_at(now_ms) > threshold),
    {
        self.intensity_at(now_ms) > threshold
    }

    /// Whether the signal is active at the wall clock's present reading.
    pub fn is_active(&self, threshold: u64) -> (r: bool)
        ensures
            exists|now_ms: u64| r == (self.strength_at(now_ms) > threshold),
    {
        let now: u64 = now_millis();
        let r = self.is_active_at(threshold, now);
        proof {
            assert(r == (self.strength_at(now) > threshold));
        }
        r
    }

    /// What `time_until_inactive_at` returns: nothing when the signal is
    /// already at or below the threshold; otherwise the exact number of
    /// milliseconds after which it stops being active — the strength read
    /// `dt` milliseconds later is at or below the threshold, and one
    /// millisecond before that it is still above.
    pub open spec fn time_until_prop(self, threshold: u64, now_ms: u64, r: Option<u64>) -> bool {
        let elapsed = elapsed_ms_of(self.created_at_ms, now_ms);
        match r {
            Option::None => self.strength_at(now_ms) <= threshold,
            Option::Some(dt) => {
                &&& self.strength_at(now_ms) > threshold
                &&& 1 <= dt
                &&& self.strength_after((elapsed + dt) as nat) <= threshold
                &&& self.strength_after((elapsed + dt - 1) as nat) > threshold
            },
        }
    }

    /// Milliseconds remaining until the signal drops to or below the
    /// threshold, measured from the given instant; nothing if it is already
    /// there. Resolved by bisection over the (proved monotone) decay curve.
    pub fn time_until_inactive_at(&self, threshold: u64, now_ms: u64) -> (r: Option<u64>)
        requires
            self.wf(),
        ensures
            self.time_until_prop(threshold, now_ms, r),
    {
        let e_now: u64 = if now_ms >= self.created_at_ms {
            now_ms - self.created_at_ms
        } else {
            0
        };
        let here: u64 = strength_exec(self.initial_intensity, self.decay_rate, e_now);
        if here <= threshold {
            return Option::None;
        }
        // Past this age the decay exponent is beyond the cutoff, so the
        // strength has reached zero.
        let e_bound: u64 = CUTOFF / self.decay_rate * 1000 + 1000;
        proof {
            self.lemma_zero_past_bound(e_bound);
            if e_now >= e_bound {
                lemma_strength_antitone(
                    self.initial_intensity as nat,
                    self.decay_rate as nat,
                    e_bound as nat,
                    e_now as nat,
                );
            }
        }
        let mut lo: u64 = e_now;
        let mut hi: u64 = e_bound;
        while lo + 1 < hi
            invariant
                self.wf(),
                e_now <= lo < hi,
                self.strength_after(lo as nat) > threshold,
                self.strength_after(hi as nat) <= threshold,
            decreases hi - lo,
        {
            let mid: u64 = lo + (hi - lo) / 2;
            let s: u64 = strength_exec(self.initial_intensity, self.decay_rate, mid);
            if s > threshold {
                lo = mid;
            } else {
                hi = mid;
            }
        }
        Option::Some(hi - e_now)
    }

    /// Milliseconds remaining until inactivity, measured from the wall
    /// clock's present reading.
    pub fn time_until_inactive(&self, threshold: u64) -> (r: Option<u64>)
        requires
            self.wf(),
        ensures
            exists|now_ms: u64| self.time_until_prop(threshold, now_ms, r),
    {
        let now: u64 = now_millis();
        let r = self.time_until_inactive_at(threshold, now);
        proof {
            assert(self.time_until_prop(threshold, now, r));
        }
        r
    }

    /// At any age of at least `e_bound` milliseconds the strength is zero.
    proof fn lemma_zero_past_bound(self, e_bound: u64)
        requires
            self.wf(),
            e_bound == CUTOFF / self.decay_rate * 1000 + 1000,
        ensures
            self.strength_after(e_bound as nat) == 0,
    {
        let d = self.decay_rate as int;
        let q = (CUTOFF as int) / d;
        lemma_fundamental_div_mod(CUTOFF as int, d);
        assert(d * q <= CUTOFF < d * q + d);
        assert(d * (q * 1000 + 1000) == d * q * 1000 + d * 1000) by (nonlinear_arith);
        assert(d * q * 1000 + d * 1000 >= CUTOFF * 1000 + (d * 1000 - (d - 1) * 1000))
            by (nonlinear_arith)
            requires
                d * q + d > CUTOFF,
                d >= 1,
        ;
        assert((self.decay_rate * e_bound) as int >= (CUTOFF * 1000) as int);
        lemma_div_is_ordered(
            (CUTOFF * 1000) as int,
            (self.decay_rate * e_bound) as int,
            1000,
        );
        assert((CUTOFF * 1000) as int / 1000 == CUTOFF) by (nonlinear_arith);
        assert(decay_exponent(self.decay_rate as nat, e_bound as nat) >= CUTOFF);
        assert(decay_factor(decay_exponent(self.decay_rate as nat, e_bound as nat)) == 0);
        assert(mul_fp(self.initial_intensity as nat, 0) == 0) by (nonlinear_arith);
    }

    /// The half-life in milliseconds: the time over which strength halves,
    /// `ln 2 / decay_rate` seconds.
    pub fn half_life(&self) -> (r: u64)
        requires
            1 <= self.decay_rate,
        ensures
            r == (LN2_SCALED * 1000) as nat / self.decay_rate as nat,
    {
        (LN2_SCALED * 1000) / self.decay_rate
    }

    /// The signal's age at the given instant, in whole seconds.
    pub fn age_secs_at(&self, now_ms: u64) -> (r: u64)
        ensures
            r == elapsed_ms_of(self.created_at_ms, now_ms) / 1000,
    {
        let elapsed: u64 = if now_ms >= self.created_at_ms {
            now_ms - self.created_at_ms
        } else {
            0
        };
        elapsed / 1000
    }

    /// The signal's age at the wall clock's present reading, in whole
    /// seconds.
    pub fn age_secs(&self) -> (r: u64)
        ensures
            exists|now_ms: u64| r == elapsed_ms_of(self.created_at_ms, now_ms) / 1000,
    {
        let now: u64 = now_millis();
        let r = self.age_secs_at(now);
        proof {
            assert(r == elapsed_ms_of(self.created_at_ms, now) / 1000);
        }
        r
    }
}

/// A signal read at its own creation instant is at its full deposited
/// strength — no decay has happened at age zero.
pub proof fn lemma_full_strength_at_creation(p: Pheromone)
    requires
        p.wf(),
    ensures
        p.strength_at(p.created_at_ms) == p.initial_intensity,
{
    assert(elapsed_ms_of(p.created_at_ms, p.created_at_ms) == 0);
    lemma_strength_at_zero(p.initial_intensity as nat, p.decay_rate as nat);
}

/// At its half-life a full-strength signal reads half strength, within half
/// a percent. Stated for decay rates up to one unit per second: a faster
/// rate gives a half-life of under `ln 2` seconds, so few whole milliseconds
/// that the millisecond rounding in the half-life itself dominates.
pub proof fn lemma_half_strength_at_half_life(p: Pheromone)
    requires
        p.wf(),
        p.initial_intensity == SCALE,
        p.decay_rate <= SCALE,
    ensures
        499_000_000 <= p.strength_after((LN2_SCALED * 1000) as nat / (p.decay_rate as nat)),
        p.strength_after((LN2_SCALED * 1000) as nat / (p.decay_rate as nat)) <= 501_000_000,
{
    let d = p.decay_rate as int;
    let hl = 693_147_181_000int / d;
    lemma_fundamental_div_mod(693_147_181_000int, d);
    assert(693_147_181_000int - d < d * hl <= 693_147_181_000int);
    let x = decay_exponent(p.decay_rate as nat, hl as nat);
    lemma_div_is_ordered(d * hl, 693_147_181_000int, 1000);
    lemma_div_is_ordered(692_147_181_000int, d * hl, 1000);
    assert(692_147_181 <= x <= 693_147_181);
    lemma_decay_factor_antitone(x, 693_147_181);
    lemma_decay_factor_antitone(692_147_181, x);
    lemma_factor_at_ln2();
    lemma_factor_near_ln2();
    let f = decay_factor(x);
    assert(500_007_150 <= f <= 500_499_326);
    lemma_decay_factor_le_scale(x);
    lemma_div_multiples_vanish(f as int, SCALE as int);
    assert(mul_fp(SCALE as nat, f) == f);
}

/// Strength is monotone in the reading instant: of two readings of one
/// signal, the earlier is never the smaller.
pub proof fn lemma_pheromone_monotone(p: Pheromone, t1: u64, t2: u64)
    requires
        t1 <= t2,
    ensures
        p.strength_at(t1) >= p.strength_at(t2),
{
    lemma_strength_antitone(
        p.initial_intensity as nat,
        p.decay_rate as nat,
        elapsed_ms_of(p.created_at_ms, t1),
        elapsed_ms_of(p.created_at_ms, t2),
    );
}

/// The unit actually stored on the blackboard: arbitrary payload data paired
/// with the signal that decays over it.
#[derive(Clone, Debug)]
pub struct PheromonePayload<T> {
    /// The data being signalled; consumers get a copy, never a reference
    /// into the store.
    pub data: T,
    /// The decaying signal attached to the data.
    pub pheromone: Pheromone,
}

impl<T> PheromonePayload<T> {
    /// Pair data with its signal; pure construction, no reading of clocks.
    pub fn new(data: T, pheromone: Pheromone) -> (r: Self)
        ensures
            r.data == data,
            r.pheromone == pheromone,
    {
        PheromonePayload { data, pheromone }
    }

    /// Whether the data is still fresh at the given instant: its signal is
    /// strictly above the threshold.
    pub fn is_fresh_at(&self, threshold: u64, now_ms: u64) -> (r: bool)
        ensures
            r == (self.pheromone.strength_at(now_ms) > threshold),
    {
        self.pheromone.is_active_at(threshold, now_ms)
    }

    /// Whether the data is fresh at the wall clock's present reading.
    pub fn is_fresh(&self, threshold: u64) -> (r: bool)
        ensures
            exists|now_ms: u64| r == (self.pheromone.strength_at(now_ms) > threshold),
    {
        self.pheromone.is_active(threshold)
    }

    /// The signal's strength at the given instant.
    pub fn intensity_at(&self, now_ms: u64) -> (r: u64)
        ensures
            r == self.pheromone.strength_at(now_ms),
            r <= SCALE,
    {
        self.pheromone.intensity_at(now_ms)
    }

    /// The signal's strength at the wall clock's present reading.
    pub fn intensity(&self) -> (r: u64)
        ensures
            r <= SCALE,
            exists|now_ms: u64| r == self.pheromone.strength_at(now_ms),
    {
        self.pheromone.current_intensity()
    }
}

/// The closed set of signal kinds the blackboard knows; each is bound to a
/// stable storage key, a display label, and configured policy.
#[derive(Clone, Copy, Debug, PartialEq, Eq, Hash, Structural)]
pub enum PheromoneType {
    /// Deposited by the market sensor when fresh price data arrives.
    PriceFreshness,
    /// Deposited by the analyst when portfolio drift warrants rebalancing.
    RebalanceOpportunity,
    /// Deposited by the volatility guardian when conditions permit trading.
    ExecutionPermit,
    /// Deposited by the trader after executing a trade.
    TradeExecuted,
}

/// The signal kinds in registry-declaration order.
pub open spec fn all_kinds() -> Seq<PheromoneType> {
    seq![
        PheromoneType::PriceFreshness,
        PheromoneType::RebalanceOpportunity,
        PheromoneType::ExecutionPermit,
        PheromoneType::TradeExecuted,
    ]
}

impl PheromoneType {
    /// Every signal kind, in registry-declaration order.
    pub fn all() -> (r: Vec<PheromoneType>)
        ensures
            r@ == all_kinds(),
    {
        let mut v: Vec<PheromoneType> = Vec::new();
        v.push(PheromoneType::PriceFreshness);
        v.push(PheromoneType::RebalanceOpportunity);
        v.push(PheromoneType::ExecutionPermit);
        v.push(PheromoneType::TradeExecuted);
        proof {
            assert(v@ =~= all_kinds());
        }
        v
    }

    /// The stable storage key of this kind.
    pub open spec fn key_spec(self) -> Seq<char> {
        match self {
            PheromoneType::PriceFreshness => "pheromone:price_freshness"@,
            PheromoneType::RebalanceOpportunity => "pheromone:rebalance_opportunity"@,
            PheromoneType::ExecutionPermit => "pheromone:execution_permit"@,
            PheromoneType::TradeExecuted => "pheromone:trade_executed"@,
        }
    }

    /// The storage key under which envelopes of this kind are kept.
    pub fn key(&self) -> (r: &'static str)
        ensures
            r@ == self.key_spec(),
    {
        match self {
            PheromoneType::PriceFreshness => "pheromone:price_freshness",
            PheromoneType::RebalanceOpportunity => "pheromone:rebalance_opportunity",
            PheromoneType::ExecutionPermit => "pheromone:execution_permit",
            PheromoneType::TradeExecuted => "pheromone:trade_executed",
        }
    }

    /// The display label of this kind.
    pub open spec fn label_spec(self) -> Seq<char> {
        match self {
            PheromoneType::PriceFreshness => "Price Freshness"@,
            PheromoneType::RebalanceOpportunity => "Rebalance Opportunity"@,
            PheromoneType::ExecutionPermit => "Execution Permit"@,
            PheromoneType::TradeExecuted => "Trade Executed"@,
        }
    }

    /// The human-readable label of this kind.
    pub fn label(&self) -> (r: &'static str)
        ensures
            r@ == self.label_spec(),
    {
        match self {
            PheromoneType::PriceFreshness => "Price Freshness",
            PheromoneType::RebalanceOpportunity => "Rebalance Opportunity",
            PheromoneType::ExecutionPermit => "Execution Permit",
            PheromoneType::TradeExecuted => "Trade Executed",
        }
    }

    /// The decay rate configured for this kind.
    pub open spec fn decay_rate_spec(self, c: Config) -> u64 {
        match self {
            PheromoneType::PriceFreshness => c.pheromones.price_freshness_decay,
            PheromoneType::RebalanceOpportunity => c.pheromones.rebalance_opportunity_decay,
            PheromoneType::ExecutionPermit => c.pheromones.execution_permit_decay,
            PheromoneType::TradeExecuted => c.pheromones.trade_executed_decay,
        }
    }

    /// The decay rate for this kind, resolved from the supplied policy.
    pub fn decay_rate(&self, config: &Config) -> (r: u64)
        ensures
            r == self.decay_rate_spec(*config),
    {
        match self {
            PheromoneType::PriceFreshness => config.pheromones.price_freshness_decay,
            PheromoneType::RebalanceOpportunity => config.pheromones.rebalance_opportunity_decay,
            PheromoneType::ExecutionPermit => config.pheromones.execution_permit_decay,
            PheromoneType::TradeExecuted => config.pheromones.trade_executed_decay,
        }
    }

    /// The activation threshold configured for this kind.
    pub open spec fn threshold_spec(self, c: Config) -> u64 {
        match self {
            PheromoneType::PriceFreshness => c.thresholds.price_freshness,
            PheromoneType::RebalanceOpportunity => c.thresholds.rebalance_opportunity,
            PheromoneType::ExecutionPermit => c.thresholds.execution_permit,
            PheromoneType::TradeExecuted => c.thresholds.trade_executed,
        }
    }

    /// The activation threshold for this kind, resolved from the supplied
    /// policy.
    pub fn threshold(&self, config: &Config) -> (r: u64)
        ensures
            r == self.threshold_spec(*config),
    {
        match self {
            PheromoneType::PriceFreshness => config.thresholds.price_freshness,
            PheromoneType::RebalanceOpportunity => config.thresholds.rebalance_opportunity,
            PheromoneType::ExecutionPermit => config.thresholds.execution_permit,
            PheromoneType::TradeExecuted => config.thresholds.trade_executed,
        }
    }
}

} // verus!
