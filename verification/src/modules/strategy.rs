//! Trading signals and the engine that derives them from market ticks.

use vstd::prelude::*;
use crate::fixed::{
    lemma_product_fits, scaled_product, scaled_ratio, wide_scaled_product, MAX_NOTIONAL,
    MAX_PRICE, SCALE,
};
use crate::modules::data_ingestor::MarketData;
use crate::platform::{new_uuid, now_millis};
use crate::text::same_text;

verus! {

/// The side of a trade.
#[derive(Debug, Clone, Copy, PartialEq, Eq, Structural, Hash)]
pub enum TradeAction {
    Buy,
    Sell,
    Hold,
}

/// The kind of strategy that a signal comes from.
#[derive(Debug, Clone, Copy, PartialEq, Eq, Structural, Hash)]
pub enum StrategyType {
    TokenSniping,
    Arbitrage,
    MomentumTrading,
    SoulMeteorSniping,
    MeteoraDAMM,
    DeveloperTracking,
    AxiomMemeCoin,
    AIDecision,
}

/// The kind of strategy that a name stands for; none for any other name.
pub open spec fn strategy_named(name: Seq<char>) -> Option<StrategyType> {
    if name == "TokenSniping"@ {
        Some(StrategyType::TokenSniping)
    } else if name == "Arbitrage"@ {
        Some(StrategyType::Arbitrage)
    } else if name == "MomentumTrading"@ {
        Some(StrategyType::MomentumTrading)
    } else if name == "SoulMeteorSniping"@ {
        Some(StrategyType::SoulMeteorSniping)
    } else if name == "MeteoraDAMM"@ {
        Some(StrategyType::MeteoraDAMM)
    } else if name == "DeveloperTracking"@ {
        Some(StrategyType::DeveloperTracking)
    } else if name == "AxiomMemeCoin"@ {
        Some(StrategyType::AxiomMemeCoin)
    } else if name == "AIDecision"@ {
        Some(StrategyType::AIDecision)
    } else {
        None
    }
}

/// The kind of strategy that `name` stands for.
pub fn parse_strategy(name: &str) -> (r: Option<StrategyType>)
    ensures
        r == strategy_named(name@),
{
    if same_text(name, "TokenSniping") {
        Some(StrategyType::TokenSniping)
    } else if same_text(name, "Arbitrage") {
        Some(StrategyType::Arbitrage)
    } else if same_text(name, "MomentumTrading") {
        Some(StrategyType::MomentumTrading)
    } else if same_text(name, "SoulMeteorSniping") {
        Some(StrategyType::SoulMeteorSniping)
    } else if same_text(name, "MeteoraDAMM") {
        Some(StrategyType::MeteoraDAMM)
    } else if same_text(name, "DeveloperTracking") {
        Some(StrategyType::DeveloperTracking)
    } else if same_text(name, "AxiomMemeCoin") {
        Some(StrategyType::AxiomMemeCoin)
    } else if same_text(name, "AIDecision") {
        Some(StrategyType::AIDecision)
    } else {
        None
    }
}

/// A strategy's proposal to trade. Quantity, target price and confidence are
/// in millionths; the timestamp is in milliseconds since the Unix epoch.
#[derive(Debug)]
pub struct TradingSignal {
    pub signal_id: String,
    pub symbol: String,
    pub action: TradeAction,
    pub quantity: u64,
    pub target_price: u64,
    pub confidence: u64,
    pub timestamp: i64,
    pub strategy_type: StrategyType,
}

impl Clone for TradingSignal {
    fn clone(&self) -> (r: Self)
        ensures
            r == *self,
    {
        TradingSignal {
            signal_id: self.signal_id.clone(),
            symbol: self.symbol.clone(),
            action: self.action,
            quantity: self.quantity,
            target_price: self.target_price,
            confidence: self.confidence,
            timestamp: self.timestamp,
            strategy_type: self.strategy_type,
        }
    }
}

impl TradingSignal {
    /// The value of the trade that the signal proposes: quantity times
    /// target price.
    pub open spec fn notional(&self) -> int {
        scaled_product(self.quantity as int, self.target_price as int)
    }

    /// A signal is well formed when its confidence is at most one and its
    /// price and notional value are within the engine's limits.
    pub open spec fn well_formed(&self) -> bool {
        &&& self.confidence <= SCALE
        &&& self.target_price <= MAX_PRICE
        &&& self.notional() <= MAX_NOTIONAL
    }

    /// Whether the signal is well formed.
    pub fn is_well_formed(&self) -> (r: bool)
        ensures
            r == self.well_formed(),
    {
        self.confidence <= SCALE && self.target_price <= MAX_PRICE && wide_scaled_product(
            self.quantity,
            self.target_price,
        ) <= MAX_NOTIONAL as u128
    }
}

/// The quantity of every signal of the sniping rule: one hundred.
pub const SNIPE_QUANTITY: u64 = 100_000_000;

/// The price above which the sniping rule gives a signal: 105.
pub const SNIPE_PRICE_FLOOR: u64 = 105_000_000;

/// The slippage to expect for an order of `order_size` against `liquidity`
/// at `price`, as a fraction: all of it without liquidity; otherwise the
/// order's share of the liquidity, at most a half, weighted by 1.5 below a
/// price of 0.01, by 1.2 below a price of 1, and held to at most one.
pub open spec fn slippage(order_size: u64, liquidity: u64, price: u64) -> int {
    if liquidity == 0 {
        SCALE as int
    } else {
        let impact = scaled_ratio(order_size as int, liquidity as int);
        let base = if impact < 500_000 {
            impact
        } else {
            500_000
        };
        let factor: int = if price < 10_000 {
            1_500_000
        } else if price < SCALE {
            1_200_000
        } else {
            1_000_000
        };
        let weighted = scaled_product(base, factor);
        if weighted < SCALE {
            weighted
        } else {
            SCALE as int
        }
    }
}

/// The slippage is a fraction between zero and one.
pub proof fn lemma_slippage_is_fraction(order_size: u64, liquidity: u64, price: u64)
    ensures
        0 <= slippage(order_size, liquidity, price) <= SCALE,
{
    if liquidity != 0 {
        let impact = scaled_ratio(order_size as int, liquidity as int);
        assert(impact >= 0) by (nonlinear_arith)
            requires
                impact == (order_size as int * 1_000_000) / (liquidity as int),
                order_size >= 0,
                liquidity > 0,
        ;
        let base = if impact < 500_000 {
            impact
        } else {
            500_000
        };
        let factor: int = if price < 10_000 {
            1_500_000
        } else if price < SCALE {
            1_200_000
        } else {
            1_000_000
        };
        assert(scaled_product(base, factor) >= 0) by (nonlinear_arith)
            requires
                scaled_product(base, factor) == (base * factor) / 1_000_000,
                base >= 0,
                factor >= 0,
        ;
    }
}

/// What the sniping rule makes of a tick: nothing at a price of 105 or
/// less, or above the largest price; otherwise a buy of one hundred at the
/// tick's price raised by one percent and by the expected slippage, with a
/// confidence of 0.7 lowered by the slippage.
pub open spec fn snipe_applies(data: MarketData) -> bool {
    SNIPE_PRICE_FLOOR < data.price <= MAX_PRICE
}

/// The liquidity that the sniping rule assumes behind a tick: a tenth of
/// its volume.
pub open spec fn snipe_liquidity(data: MarketData) -> int {
    scaled_product(data.volume as int, 100_000)
}

/// The slippage that the sniping rule expects on a tick.
pub open spec fn snipe_slippage(data: MarketData) -> int {
    slippage(SNIPE_QUANTITY, snipe_liquidity(data) as u64, data.price)
}

/// The target price of the sniping rule's signal on a tick.
pub open spec fn snipe_target(data: MarketData) -> int {
    scaled_product(data.price as int, 1_010_000 + snipe_slippage(data))
}

/// The confidence of the sniping rule's signal on a tick.
pub open spec fn snipe_confidence(data: MarketData) -> int {
    scaled_product(700_000, SCALE - snipe_slippage(data))
}

/// The engine that turns market ticks into trading signals.
pub struct StrategyEngine {
    pub is_running: bool,
}

impl StrategyEngine {
    /// An engine that is not running.
    pub fn new() -> (r: Self)
        ensures
            !r.is_running,
    {
        StrategyEngine { is_running: false }
    }

    /// Marks the engine as running.
    pub fn start(&mut self)
        ensures
            final(self).is_running,
    {
        self.is_running = true;
    }

    /// Marks the engine as stopped.
    pub fn stop(&mut self)
        ensures
            !final(self).is_running,
    {
        self.is_running = false;
    }

    /// The expected slippage, as a fraction, of an order of `order_size`
    /// against `liquidity` at `price`.
    pub fn calculate_slippage(&self, order_size: u64, liquidity: u64, price: u64) -> (r: u64)
        ensures
            r as int == slippage(order_size, liquidity, price),
            r <= SCALE,
    {
        if liquidity == 0 {
            return SCALE;
        }
        proof {
            lemma_product_fits(order_size, SCALE);
            lemma_slippage_is_fraction(order_size, liquidity, price);
        }
        let impact: u128 = (order_size as u128) * (SCALE as u128) / (liquidity as u128);
        let base: u64 = if impact < 500_000 {
            impact as u64
        } else {
            500_000
        };
        let factor: u64 = if price < 10_000 {
            1_500_000
        } else if price < SCALE {
            1_200_000
        } else {
            1_000_000
        };
        let weighted: u128 = wide_scaled_product(base, factor);
        if weighted < SCALE as u128 {
            weighted as u64
        } else {
            SCALE
        }
    }

    /// The signal that the sniping rule gives for a tick, under the
    /// identifier `signal_id` and stamped `now`.
    pub fn signal_for_tick(&self, data: MarketData, signal_id: String, now: i64) -> (r: Option<
        TradingSignal,
    >)
        ensures
            r is Some <==> snipe_applies(data),
            r matches Some(signal) ==> {
                &&& signal.signal_id == signal_id
                &&& signal.symbol == data.symbol
                &&& signal.action == TradeAction::Buy
                &&& signal.quantity == SNIPE_QUANTITY
                &&& signal.target_price as int == snipe_target(data)
                &&& signal.confidence as int == snipe_confidence(data)
                &&& signal.timestamp == now
                &&& signal.strategy_type == StrategyType::TokenSniping
            },
    {
        if data.price <= SNIPE_PRICE_FLOOR || data.price > MAX_PRICE {
            return None;
        }
        let liquidity_wide: u128 = wide_scaled_product(data.volume, 100_000);
        proof {
            crate::fixed::lemma_scaled_product_at_most(data.volume as int, 100_000);
        }
        let liquidity: u64 = liquidity_wide as u64;
        let slip: u64 = self.calculate_slippage(SNIPE_QUANTITY, liquidity, data.price);
        let markup: u64 = 1_010_000 + slip;
        proof {
            crate::fixed::lemma_scaled_product_monotonic(
                data.price as int,
                MAX_PRICE as int,
                markup as int,
                2_010_000,
            );
            assert((1_000_000_000_000_000_000int * 2_010_000) / 1_000_000
                == 2_010_000_000_000_000_000int) by (nonlinear_arith);
            crate::fixed::lemma_scaled_product_at_most(700_000, (SCALE - slip) as int);
        }
        let target: u64 = wide_scaled_product(data.price, markup) as u64;
        let confidence: u64 = wide_scaled_product(700_000, SCALE - slip) as u64;
        Some(
            TradingSignal {
                signal_id,
                symbol: data.symbol,
                action: TradeAction::Buy,
                quantity: SNIPE_QUANTITY,
                target_price: target,
                confidence,
                timestamp: now,
                strategy_type: StrategyType::TokenSniping,
            },
        )
    }

    /// The signal that the sniping rule gives for a tick, under a fresh
    /// identifier and stamped with the time of the system clock.
    pub fn process_market_data(&self, data: MarketData) -> (r: Option<TradingSignal>)
        ensures
            r is Some <==> snipe_applies(data),
            r matches Some(signal) ==> {
                &&& signal.symbol == data.symbol
                &&& signal.action == TradeAction::Buy
                &&& signal.quantity == SNIPE_QUANTITY
                &&& signal.target_price as int == snipe_target(data)
                &&& signal.confidence as int == snipe_confidence(data)
                &&& signal.strategy_type == StrategyType::TokenSniping
                &&& signal.signal_id@.len() == 36
            },
    {
        let id = new_uuid();
        let now = now_millis();
        self.signal_for_tick(data, id, now)
    }
}

} // verus!
