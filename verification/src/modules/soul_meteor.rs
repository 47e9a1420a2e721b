//! The liquidity pool strategy: pools are screened by filters on their
//! fundamentals, and a pool that passes becomes a trading signal.

use vstd::prelude::*;
use vstd::string::StringExecFns;
use crate::fixed::SCALE;
use crate::lists::picked;
use crate::modules::strategy::{StrategyType, TradeAction, TradingSignal};
use crate::platform::{new_uuid, now_millis};
use crate::text::{decimal_text, push_number};

verus! {

/// How risky a pool is.
#[derive(Debug, Clone, Copy, PartialEq, Eq, Structural, Hash)]
pub enum RiskLevel {
    Low,
    Medium,
    High,
    Extreme,
}

/// Who holds the token of a pool, as percentages in millionths.
#[derive(Debug, Clone, Copy, PartialEq, Eq, Structural)]
pub struct HolderDistribution {
    pub top_10_percentage: u64,
    pub dev_percentage: u64,
    pub bundler_percentage: u64,
    pub sniper_percentage: u64,
    pub total_concentrated: u64,
}

/// What is known of a pool. Amounts, the score and percentages are in
/// millionths.
#[derive(Debug)]
pub struct PoolAnalysis {
    pub pool_address: String,
    pub token_symbol: String,
    pub liquidity_usd: u64,
    pub age_minutes: u32,
    pub market_cap_usd: u64,
    pub volume_24h: u64,
    pub holder_distribution: HolderDistribution,
    pub soul_meteor_score: u64,
    pub risk_assessment: RiskLevel,
}

/// The filters that a pool must pass. Amounts, the score and percentages
/// are in millionths.
#[derive(Debug, Clone, Copy, PartialEq, Eq, Structural)]
pub struct SoulMeteorFilters {
    pub min_liquidity_usd: u64,
    pub max_age_minutes: u32,
    pub min_market_cap_usd: u64,
    pub max_market_cap_usd: u64,
    pub max_concentrated_percentage: u64,
    pub max_dev_percentage: u64,
    pub min_volume_24h: u64,
    pub min_soul_meteor_score: u64,
}

/// The filters where none are given.
pub open spec fn standard_filters() -> SoulMeteorFilters {
    SoulMeteorFilters {
        min_liquidity_usd: 20_000_000_000,
        max_age_minutes: 10,
        min_market_cap_usd: 800_000_000_000,
        max_market_cap_usd: 2_000_000_000_000,
        max_concentrated_percentage: 30_000_000,
        max_dev_percentage: 10_000_000,
        min_volume_24h: 50_000_000_000,
        min_soul_meteor_score: 7_000_000,
    }
}

impl Default for SoulMeteorFilters {
    fn default() -> (r: Self)
        ensures
            r == standard_filters(),
    {
        SoulMeteorFilters {
            min_liquidity_usd: 20_000_000_000,
            max_age_minutes: 10,
            min_market_cap_usd: 800_000_000_000,
            max_market_cap_usd: 2_000_000_000_000,
            max_concentrated_percentage: 30_000_000,
            max_dev_percentage: 10_000_000,
            min_volume_24h: 50_000_000_000,
            min_soul_meteor_score: 7_000_000,
        }
    }
}

/// Whether a pool passes the filters: enough liquidity, young enough, a
/// market capitalization within the bounds, holdings that are not too
/// concentrated, enough volume, a high enough score, and no extreme risk.
pub open spec fn passes(filters: SoulMeteorFilters, pool: PoolAnalysis) -> bool {
    &&& pool.liquidity_usd >= filters.min_liquidity_usd
    &&& pool.age_minutes <= filters.max_age_minutes
    &&& pool.market_cap_usd >= filters.min_market_cap_usd
    &&& pool.market_cap_usd <= filters.max_market_cap_usd
    &&& pool.holder_distribution.total_concentrated <= filters.max_concentrated_percentage
    &&& pool.holder_distribution.dev_percentage <= filters.max_dev_percentage
    &&& pool.volume_24h >= filters.min_volume_24h
    &&& pool.soul_meteor_score >= filters.min_soul_meteor_score
    &&& pool.risk_assessment != RiskLevel::Extreme
}

/// The confidence in a pool before it is held between zero and one: a half,
/// raised for good fundamentals and lowered for risks.
pub open spec fn raw_confidence(pool: PoolAnalysis) -> int {
    500_000 + (if pool.liquidity_usd > 30_000_000_000 {
        100_000int
    } else {
        0
    }) + (if pool.age_minutes <= 5 {
        150_000int
    } else {
        0
    }) + (if pool.holder_distribution.total_concentrated < 25_000_000 {
        100_000int
    } else {
        0
    }) + (if pool.soul_meteor_score > 8_000_000 {
        100_000int
    } else {
        0
    }) + (if pool.volume_24h > 100_000_000_000 {
        50_000int
    } else {
        0
    }) - (if pool.risk_assessment == RiskLevel::High {
        200_000int
    } else {
        0
    }) - (if pool.holder_distribution.dev_percentage > 8_000_000 {
        100_000int
    } else {
        0
    })
}

/// The confidence in a pool, between zero and one.
pub open spec fn pool_confidence(pool: PoolAnalysis) -> int {
    crate::fixed::clamp(raw_confidence(pool), 0, SCALE as int)
}

/// The quantity to buy of a pool's token, by the risk of the pool.
pub open spec fn pool_quantity(risk: RiskLevel) -> u64 {
    match risk {
        RiskLevel::Low => 150_000_000,
        RiskLevel::Medium => 100_000_000,
        RiskLevel::High => 50_000_000,
        RiskLevel::Extreme => 25_000_000,
    }
}

/// The price at which to enter a pool: its market capitalization divided by
/// a million.
pub open spec fn entry_price(pool: PoolAnalysis) -> u64 {
    pool.market_cap_usd / 1_000_000
}

impl PoolAnalysis {
    /// The confidence in the pool.
    pub fn calculate_confidence(&self) -> (r: u64)
        ensures
            r as int == pool_confidence(*self),
            r <= SCALE,
    {
        let mut gain: u64 = 500_000;
        let mut loss: u64 = 0;
        if self.liquidity_usd > 30_000_000_000 {
            gain = gain + 100_000;
        }
        if self.age_minutes <= 5 {
            gain = gain + 150_000;
        }
        if self.holder_distribution.total_concentrated < 25_000_000 {
            gain = gain + 100_000;
        }
        if self.soul_meteor_score > 8_000_000 {
            gain = gain + 100_000;
        }
        if self.volume_24h > 100_000_000_000 {
            gain = gain + 50_000;
        }
        match self.risk_assessment {
            RiskLevel::High => {
                loss = loss + 200_000;
            },
            _ => {},
        }
        if self.holder_distribution.dev_percentage > 8_000_000 {
            loss = loss + 100_000;
        }
        assert(gain - loss == raw_confidence(*self));
        if gain <= loss {
            0
        } else if gain - loss > SCALE {
            SCALE
        } else {
            gain - loss
        }
    }

    /// The price at which to enter the pool.
    pub fn estimate_entry_price(&self) -> (r: u64)
        ensures
            r == entry_price(*self),
    {
        self.market_cap_usd / 1_000_000
    }

    /// The signal to buy the pool's token, under the identifier `signal_id`
    /// and stamped `now`.
    pub fn to_trading_signal_at(&self, signal_id: String, now: i64) -> (r: TradingSignal)
        ensures
            r.signal_id == signal_id,
            r.symbol@ == self.token_symbol@,
            r.action == TradeAction::Buy,
            r.quantity == pool_quantity(self.risk_assessment),
            r.target_price == entry_price(*self),
            r.confidence as int == pool_confidence(*self),
            r.timestamp == now,
            r.strategy_type == StrategyType::SoulMeteorSniping,
    {
        let quantity: u64 = match self.risk_assessment {
            RiskLevel::Low => 150_000_000,
            RiskLevel::Medium => 100_000_000,
            RiskLevel::High => 50_000_000,
            RiskLevel::Extreme => 25_000_000,
        };
        TradingSignal {
            signal_id,
            symbol: self.token_symbol.clone(),
            action: TradeAction::Buy,
            quantity,
            target_price: self.estimate_entry_price(),
            confidence: self.calculate_confidence(),
            timestamp: now,
            strategy_type: StrategyType::SoulMeteorSniping,
        }
    }

    /// The signal to buy the pool's token, under a fresh identifier and
    /// stamped with the time of the system clock.
    pub fn to_trading_signal(&self) -> (r: TradingSignal)
        ensures
            r.symbol@ == self.token_symbol@,
            r.action == TradeAction::Buy,
            r.quantity == pool_quantity(self.risk_assessment),
            r.target_price == entry_price(*self),
            r.confidence as int == pool_confidence(*self),
            r.strategy_type == StrategyType::SoulMeteorSniping,
            r.signal_id@.len() == 36,
    {
        self.to_trading_signal_at(new_uuid(), now_millis())
    }
}

/// Whether `pool` is the sample pool number `i`.
pub open spec fn is_sample_pool(pool: PoolAnalysis, i: int) -> bool {
    &&& pool.pool_address@ == "pool_address_"@ + decimal_text(i as nat)
    &&& pool.token_symbol@ == "TOKEN"@ + decimal_text(i as nat)
    &&& pool.liquidity_usd == 25_000_000_000 + i * 5_000_000_000
    &&& pool.age_minutes == 5 + i * 2
    &&& pool.market_cap_usd == 900_000_000_000 + i * 100_000_000_000
    &&& pool.volume_24h == 75_000_000_000 + i * 25_000_000_000
    &&& pool.holder_distribution == (HolderDistribution {
        top_10_percentage: (15_000_000 + i * 3_000_000) as u64,
        dev_percentage: (5_000_000 + i * 1_000_000) as u64,
        bundler_percentage: 3_000_000,
        sniper_percentage: 2_000_000,
        total_concentrated: (25_000_000 + i * 4_000_000) as u64,
    })
    &&& pool.soul_meteor_score == 8_500_000 - i * 300_000
    &&& pool.risk_assessment == if i < 2 {
        RiskLevel::Low
    } else {
        RiskLevel::Medium
    }
}

/// Whether `kept` are those of the five sample pools `found` that pass the
/// filters, in their order.
pub open spec fn is_screening_of(
    kept: Seq<PoolAnalysis>,
    found: Seq<PoolAnalysis>,
    filters: SoulMeteorFilters,
) -> bool {
    let passing = Seq::new(found.len(), |i: int| passes(filters, found[i]));
    let chosen = picked(passing, 5);
    &&& found.len() == 5
    &&& forall|i: int| 0 <= i < 5 ==> is_sample_pool(#[trigger] found[i], i)
    &&& kept.len() == chosen.len()
    &&& forall|k: int| 0 <= k < chosen.len() ==> #[trigger] kept[k] == found[chosen[k]]
}

/// Screens pools for the strategy.
#[derive(Debug)]
pub struct SoulMeteorAnalyzer {
    pub filters: SoulMeteorFilters,
}

impl SoulMeteorAnalyzer {
    /// An analyzer with the filters `filters`.
    pub fn new(filters: SoulMeteorFilters) -> (r: Self)
        ensures
            r.filters == filters,
    {
        SoulMeteorAnalyzer { filters }
    }

    /// Replaces the filters.
    pub fn update_filters(&mut self, new_filters: SoulMeteorFilters)
        ensures
            final(self).filters == new_filters,
    {
        self.filters = new_filters;
    }

    /// Whether `pool` passes the filters.
    pub fn meets_criteria(&self, pool: &PoolAnalysis) -> (r: bool)
        ensures
            r == passes(self.filters, *pool),
    {
        pool.liquidity_usd >= self.filters.min_liquidity_usd && pool.age_minutes
            <= self.filters.max_age_minutes && pool.market_cap_usd
            >= self.filters.min_market_cap_usd && pool.market_cap_usd
            <= self.filters.max_market_cap_usd && pool.holder_distribution.total_concentrated
            <= self.filters.max_concentrated_percentage && pool.holder_distribution.dev_percentage
            <= self.filters.max_dev_percentage && pool.volume_24h >= self.filters.min_volume_24h
            && pool.soul_meteor_score >= self.filters.min_soul_meteor_score && !matches!(
            pool.risk_assessment,
            RiskLevel::Extreme
        )
    }

    /// One scan of the market: of the sample pools, those that pass the
    /// filters, in their order.
    pub fn screen_new_pools(&self) -> (r: Vec<PoolAnalysis>)
        ensures
            exists|found: Seq<PoolAnalysis>| #[trigger] is_screening_of(r@, found, self.filters),
    {
        let found = self.scan_new_pools();
        let ghost all = found@;
        let ghost passing = Seq::new(all.len(), |i: int| passes(self.filters, all[i]));
        let mut kept: Vec<PoolAnalysis> = Vec::new();
        for pool in it: found
            invariant
                it.seq() == all,
                all.len() == 5,
                passing == Seq::new(all.len(), |i: int| passes(self.filters, all[i])),
                kept@.len() == picked(passing, it.index() as int).len(),
                forall|k: int|
                    0 <= k < kept@.len() ==> 0 <= #[trigger] picked(passing, it.index() as int)[k]
                        < it.index(),
                forall|k: int|
                    0 <= k < kept@.len() ==> #[trigger] kept@[k] == all[picked(
                        passing,
                        it.index() as int,
                    )[k]],
        {
            let ghost at = it.index() as int;
            let ghost earlier = kept@;
            let ghost chosen = picked(passing, at);
            assert(pool == all[at]);
            assert(passing[at] == passes(self.filters, all[at]));
            if self.meets_criteria(&pool) {
                kept.push(pool);
            }
            proof {
                let after = picked(passing, at + 1);
                assert forall|k: int| 0 <= k < kept@.len() implies 0 <= #[trigger] after[k] < at + 1
                    && kept@[k] == all[after[k]] by {
                    if k < earlier.len() {
                        assert(kept@[k] == earlier[k]);
                        assert(after[k] == chosen[k]);
                    }
                }
            }
        }
        assert(is_screening_of(kept@, all, self.filters));
        kept
    }

    /// The five sample pools that stand in for a scan of the market.
    pub fn scan_new_pools(&self) -> (r: Vec<PoolAnalysis>)
        ensures
            r@.len() == 5,
            forall|i: int| 0 <= i < 5 ==> is_sample_pool(#[trigger] r@[i], i),
    {
        let mut pools: Vec<PoolAnalysis> = Vec::new();
        let mut i: u64 = 0;
        while i < 5
            invariant
                i <= 5,
                pools@.len() == i,
                forall|k: int| 0 <= k < i ==> is_sample_pool(#[trigger] pools@[k], k),
            decreases 5 - i,
        {
            let mut pool_address = String::from_str("pool_address_");
            push_number(&mut pool_address, i);
            let mut token_symbol = String::from_str("TOKEN");
            push_number(&mut token_symbol, i);
            let ghost earlier = pools@;
            pools.push(
                PoolAnalysis {
                    pool_address,
                    token_symbol,
                    liquidity_usd: 25_000_000_000 + i * 5_000_000_000,
                    age_minutes: (5 + i * 2) as u32,
                    market_cap_usd: 900_000_000_000 + i * 100_000_000_000,
                    volume_24h: 75_000_000_000 + i * 25_000_000_000,
                    holder_distribution: HolderDistribution {
                        top_10_percentage: 15_000_000 + i * 3_000_000,
                        dev_percentage: 5_000_000 + i * 1_000_000,
                        bundler_percentage: 3_000_000,
                        sniper_percentage: 2_000_000,
                        total_concentrated: 25_000_000 + i * 4_000_000,
                    },
                    soul_meteor_score: 8_500_000 - i * 300_000,
                    risk_assessment: if i < 2 {
                        RiskLevel::Low
                    } else {
                        RiskLevel::Medium
                    },
                },
            );
            proof {
                assert forall|k: int| 0 <= k < i + 1 implies is_sample_pool(
                    #[trigger] pools@[k],
                    k,
                ) by {
                    if k < i {
                        assert(pools@[k] == earlier[k]);
                    }
                }
            }
            i += 1;
        }
        pools
    }
}

} // verus!
