//! The bridge to an external decision process: market events go out to it,
//! trading commands come in from it and are screened before they become
//! trading signals.

use vstd::prelude::*;
use vstd::string::StringExecFns;
use crate::fixed::SCALE;
use crate::fixed::{saturating_add, saturating_sum};
use crate::modules::strategy::{StrategyType, TradeAction, TradingSignal};
use crate::platform::{new_uuid, now_millis};
use crate::text::same_text;

verus! {

/// What the decision process asks for.
#[derive(Debug, Clone, Copy, PartialEq, Eq, Structural, Hash)]
pub enum AIAction {
    Buy,
    Sell,
    Hold,
    StopLoss,
    TakeProfit,
}

impl AIAction {
    /// The name of the action as the decision process writes it.
    pub open spec fn name(&self) -> Seq<char> {
        match self {
            AIAction::Buy => "BUY"@,
            AIAction::Sell => "SELL"@,
            AIAction::Hold => "HOLD"@,
            AIAction::StopLoss => "STOP_LOSS"@,
            AIAction::TakeProfit => "TAKE_PROFIT"@,
        }
    }

    /// The name of the action as the decision process writes it.
    pub fn as_text(&self) -> (r: String)
        ensures
            r@ == self.name(),
    {
        match self {
            AIAction::Buy => String::from_str("BUY"),
            AIAction::Sell => String::from_str("SELL"),
            AIAction::Hold => String::from_str("HOLD"),
            AIAction::StopLoss => String::from_str("STOP_LOSS"),
            AIAction::TakeProfit => String::from_str("TAKE_PROFIT"),
        }
    }
}

/// The action that a name stands for, as the decision process writes it
/// or as the action is called here; none for any other name.
pub open spec fn action_named(name: Seq<char>) -> Option<AIAction> {
    if name == "BUY"@ || name == "Buy"@ {
        Some(AIAction::Buy)
    } else if name == "SELL"@ || name == "Sell"@ {
        Some(AIAction::Sell)
    } else if name == "HOLD"@ || name == "Hold"@ {
        Some(AIAction::Hold)
    } else if name == "STOP_LOSS"@ || name == "StopLoss"@ {
        Some(AIAction::StopLoss)
    } else if name == "TAKE_PROFIT"@ || name == "TakeProfit"@ {
        Some(AIAction::TakeProfit)
    } else {
        None
    }
}

/// The action that `name` stands for.
pub fn parse_action(name: &str) -> (r: Option<AIAction>)
    ensures
        r == action_named(name@),
{
    if same_text(name, "BUY") || same_text(name, "Buy") {
        Some(AIAction::Buy)
    } else if same_text(name, "SELL") || same_text(name, "Sell") {
        Some(AIAction::Sell)
    } else if same_text(name, "HOLD") || same_text(name, "Hold") {
        Some(AIAction::Hold)
    } else if same_text(name, "STOP_LOSS") || same_text(name, "StopLoss") {
        Some(AIAction::StopLoss)
    } else if same_text(name, "TAKE_PROFIT") || same_text(name, "TakeProfit") {
        Some(AIAction::TakeProfit)
    } else {
        None
    }
}

/// What happened on the market.
#[derive(Debug, Clone, Copy, PartialEq, Eq, Structural, Hash)]
pub enum MarketEventType {
    PriceChange,
    VolumeSpike,
    NewToken,
    LiquidityChange,
    TechnicalSignal,
}

impl MarketEventType {
    /// The name of the kind of event as the decision process reads it.
    pub open spec fn name(&self) -> Seq<char> {
        match self {
            MarketEventType::PriceChange => "PRICE_CHANGE"@,
            MarketEventType::VolumeSpike => "VOLUME_SPIKE"@,
            MarketEventType::NewToken => "NEW_TOKEN"@,
            MarketEventType::LiquidityChange => "LIQUIDITY_CHANGE"@,
            MarketEventType::TechnicalSignal => "TECHNICAL_SIGNAL"@,
        }
    }

    /// The name of the kind of event as the decision process reads it.
    pub fn as_text(&self) -> (r: String)
        ensures
            r@ == self.name(),
    {
        match self {
            MarketEventType::PriceChange => String::from_str("PRICE_CHANGE"),
            MarketEventType::VolumeSpike => String::from_str("VOLUME_SPIKE"),
            MarketEventType::NewToken => String::from_str("NEW_TOKEN"),
            MarketEventType::LiquidityChange => String::from_str("LIQUIDITY_CHANGE"),
            MarketEventType::TechnicalSignal => String::from_str("TECHNICAL_SIGNAL"),
        }
    }
}

/// What the decision process remembers of similar situations. The scores
/// are fractions in millionths.
#[derive(Debug)]
pub struct VectorContext {
    pub similar_situations: Vec<String>,
    pub confidence_score: u64,
    pub memory_relevance: u64,
}

/// A trading command of the decision process. Confidence, quantity and
/// target price are in millionths; the timestamp is in milliseconds since
/// the Unix epoch.
#[derive(Debug)]
pub struct AIDecision {
    pub decision_id: String,
    pub symbol: String,
    pub action: AIAction,
    pub confidence: u64,
    pub reasoning: String,
    pub quantity: u64,
    pub target_price: Option<u64>,
    pub ai_context: Option<String>,
    pub timestamp: i64,
    pub vector_memory_context: Option<VectorContext>,
}

/// One entry of the metadata of a market event: a key and a value as JSON
/// text.
#[derive(Debug)]
pub struct MetadataEntry {
    pub key: String,
    pub value: String,
}

/// A market event for the decision process. Price and volume are in
/// millionths.
#[derive(Debug)]
pub struct MarketEvent {
    pub event_id: String,
    pub symbol: String,
    pub price: u64,
    pub volume: u64,
    pub timestamp: i64,
    pub event_type: MarketEventType,
    pub metadata: Vec<MetadataEntry>,
}

/// The configuration of the bridge. Times are in milliseconds; the
/// confidence threshold is a fraction in millionths.
#[derive(Debug)]
pub struct AIConnectorConfig {
    pub dragonfly_url: String,
    pub brain_request_timeout_ms: u64,
    pub max_decision_age_ms: u64,
    pub confidence_threshold: u64,
    pub vector_cache_size: usize,
    pub retry_attempts: u32,
}

impl Default for AIConnectorConfig {
    /// The local queue store, a second to wait for a command, commands of
    /// up to 30 s, a confidence threshold of 0.7, a cache of 1000 and 3
    /// retries.
    fn default() -> (r: Self)
        ensures
            r.dragonfly_url@ == "redis://localhost:6379"@,
            r.brain_request_timeout_ms == 1_000,
            r.max_decision_age_ms == 30_000,
            r.confidence_threshold == 700_000,
            r.vector_cache_size == 1000,
            r.retry_attempts == 3,
    {
        AIConnectorConfig {
            dragonfly_url: String::from_str("redis://localhost:6379"),
            brain_request_timeout_ms: 1_000,
            max_decision_age_ms: 30_000,
            confidence_threshold: 700_000,
            vector_cache_size: 1000,
            retry_attempts: 3,
        }
    }
}

/// What the bridge has done so far.
#[derive(Debug, Clone, Copy, PartialEq, Eq, Structural)]
pub struct AIMetrics {
    pub decisions_received: u64,
    pub decisions_processed: u64,
    pub decisions_rejected: u64,
    pub avg_decision_latency_ms: u64,
    pub brain_connection_errors: u64,
    pub vector_cache_hits: u64,
    pub vector_cache_misses: u64,
}

/// Metrics with nothing counted.
pub open spec fn fresh_metrics() -> AIMetrics {
    AIMetrics {
        decisions_received: 0,
        decisions_processed: 0,
        decisions_rejected: 0,
        avg_decision_latency_ms: 0,
        brain_connection_errors: 0,
        vector_cache_hits: 0,
        vector_cache_misses: 0,
    }
}

impl Default for AIMetrics {
    fn default() -> (r: Self)
        ensures
            r == fresh_metrics(),
    {
        AIMetrics {
            decisions_received: 0,
            decisions_processed: 0,
            decisions_rejected: 0,
            avg_decision_latency_ms: 0,
            brain_connection_errors: 0,
            vector_cache_hits: 0,
            vector_cache_misses: 0,
        }
    }
}

/// Why a trading command did not become a trading signal.
#[derive(Debug, Clone, Copy, PartialEq, Eq, Structural)]
pub enum CommandRejection {
    /// The command is older than commands may be.
    Stale,
    /// The confidence of the command is below the threshold.
    LowConfidence,
    /// The command is to hold, which is no trade.
    Hold,
}

/// The key of the queue of market events.
pub const MARKET_EVENTS_KEY: &'static str = "overmind:market_events";

/// The key of the queue of trading commands.
pub const TRADING_COMMANDS_KEY: &'static str = "overmind:trading_commands";

/// The key of the queue of health checks.
pub const HEALTH_CHECK_KEY: &'static str = "overmind:health_check";

/// The key of the queue of answers to health checks.
pub const HEALTH_RESPONSE_KEY: &'static str = "overmind:health_response";

/// The side of the trade that an action asks for; none for holding.
pub open spec fn side_of(action: AIAction) -> Option<TradeAction> {
    match action {
        AIAction::Buy => Some(TradeAction::Buy),
        AIAction::Sell => Some(TradeAction::Sell),
        AIAction::Hold => None,
        AIAction::StopLoss => Some(TradeAction::Sell),
        AIAction::TakeProfit => Some(TradeAction::Sell),
    }
}

/// Whether a command stamped `timestamp` is stale at `now`: it is older
/// than `max_age_ms`.
pub open spec fn is_stale(timestamp: i64, now: i64, max_age_ms: u64) -> bool {
    now - timestamp > max_age_ms
}

/// Why the command `decision` is rejected at `now`, if it is: for its age
/// first, then for its confidence, then for holding.
pub open spec fn command_rejection(config: AIConnectorConfig, decision: AIDecision, now: i64)
    -> Option<CommandRejection> {
    if is_stale(decision.timestamp, now, config.max_decision_age_ms) {
        Some(CommandRejection::Stale)
    } else if decision.confidence < config.confidence_threshold {
        Some(CommandRejection::LowConfidence)
    } else if decision.action == AIAction::Hold {
        Some(CommandRejection::Hold)
    } else {
        None
    }
}

/// Whether `signal` is the trading signal that the command `decision`
/// becomes: under the command's identifier, on its side, with its numbers, a
/// target price of nothing where the command has none, and the strategy tag
/// of external decisions.
pub open spec fn is_signal_of(signal: TradingSignal, decision: AIDecision) -> bool {
    &&& signal.signal_id == decision.decision_id
    &&& signal.symbol == decision.symbol
    &&& Some(signal.action) == side_of(decision.action)
    &&& signal.quantity == decision.quantity
    &&& signal.target_price == match decision.target_price {
        Some(price) => price,
        None => 0,
    }
    &&& signal.confidence == decision.confidence
    &&& signal.timestamp == decision.timestamp
    &&& signal.strategy_type == StrategyType::AIDecision
}

/// The bridge to the decision process.
#[derive(Debug)]
pub struct AIConnector {
    pub metrics: AIMetrics,
    pub config: AIConnectorConfig,
    pub is_connected: bool,
}

/// Whether `r` is the verdict on a command at `now`: the reason for which
/// it is turned away, or the signal that it asks for.
pub open spec fn is_verdict_on(
    r: Result<TradingSignal, CommandRejection>,
    config: AIConnectorConfig,
    decision: AIDecision,
    now: i64,
) -> bool {
    match command_rejection(config, decision, now) {
        Some(reason) => r matches Err(e) && e == reason,
        None => r matches Ok(signal) && is_signal_of(signal, decision),
    }
}

impl AIConnector {
    /// A bridge with the configuration `config` that counts as connected
    /// and has done nothing yet.
    pub fn new(config: AIConnectorConfig) -> (r: Self)
        ensures
            r.config == config,
            r.metrics == fresh_metrics(),
            r.is_connected,
    {
        AIConnector { metrics: AIMetrics::default(), config, is_connected: true }
    }

    /// What the bridge has done so far.
    pub fn get_metrics(&self) -> (r: AIMetrics)
        ensures
            r == self.metrics,
    {
        self.metrics
    }

    /// Whether the decision process answered the last health check.
    pub fn is_brain_connected(&self) -> (r: bool)
        ensures
            r == self.is_connected,
    {
        self.is_connected
    }

    /// The whole seconds that the bridge waits for a command.
    pub fn wait_seconds(&self) -> (r: u64)
        ensures
            r == self.config.brain_request_timeout_ms / 1000,
    {
        self.config.brain_request_timeout_ms / 1000
    }

    /// Whether the command `decision` is stale at `now`.
    pub fn decision_is_stale(&self, decision: &AIDecision, now: i64) -> (r: bool)
        ensures
            r == is_stale(decision.timestamp, now, self.config.max_decision_age_ms),
    {
        (now as i128) - (decision.timestamp as i128) > self.config.max_decision_age_ms as i128
    }

    /// The trading signal that the command `ai_decision` becomes, or the
    /// rejection that it is to hold.
    pub fn convert_ai_decision_to_signal(&self, ai_decision: AIDecision) -> (r: Result<
        TradingSignal,
        CommandRejection,
    >)
        ensures
            match side_of(ai_decision.action) {
                None => r matches Err(e) && e == CommandRejection::Hold,
                Some(_) => r matches Ok(signal) && is_signal_of(signal, ai_decision),
            },
    {
        let action = match ai_decision.action {
            AIAction::Buy => TradeAction::Buy,
            AIAction::Sell => TradeAction::Sell,
            AIAction::Hold => {
                return Err(CommandRejection::Hold);
            },
            AIAction::StopLoss => TradeAction::Sell,
            AIAction::TakeProfit => TradeAction::Sell,
        };
        Ok(
            TradingSignal {
                signal_id: ai_decision.decision_id,
                symbol: ai_decision.symbol,
                action,
                quantity: ai_decision.quantity,
                target_price: match ai_decision.target_price {
                    Some(price) => price,
                    None => 0,
                },
                confidence: ai_decision.confidence,
                timestamp: ai_decision.timestamp,
                strategy_type: StrategyType::AIDecision,
            },
        )
    }

    /// Screens the command `ai_decision` at `now`. A command that is stale,
    /// of too little confidence, or to hold, is rejected, in this order; any
    /// other becomes a trading signal. The command is counted as received,
    /// and as processed or rejected.
    pub fn process_ai_decision(&mut self, ai_decision: AIDecision, now: i64) -> (r: Result<
        TradingSignal,
        CommandRejection,
    >)
        ensures
            final(self).config == old(self).config,
            final(self).is_connected == old(self).is_connected,
            is_verdict_on(r, old(self).config, ai_decision, now),
            final(self).metrics == (AIMetrics {
                decisions_received: saturating_sum(old(self).metrics.decisions_received, 1),
                decisions_processed: if r is Ok {
                    saturating_sum(old(self).metrics.decisions_processed, 1)
                } else {
                    old(self).metrics.decisions_processed
                },
                decisions_rejected: if r is Err {
                    saturating_sum(old(self).metrics.decisions_rejected, 1)
                } else {
                    old(self).metrics.decisions_rejected
                },
                ..old(self).metrics
            }),
    {
        self.metrics.decisions_received = saturating_add(self.metrics.decisions_received, 1);
        let verdict = if self.decision_is_stale(&ai_decision, now) {
            Err(CommandRejection::Stale)
        } else if ai_decision.confidence < self.config.confidence_threshold {
            Err(CommandRejection::LowConfidence)
        } else {
            self.convert_ai_decision_to_signal(ai_decision)
        };
        match &verdict {
            Ok(_) => {
                self.metrics.decisions_processed = saturating_add(
                    self.metrics.decisions_processed,
                    1,
                );
            },
            Err(_) => {
                self.metrics.decisions_rejected = saturating_add(
                    self.metrics.decisions_rejected,
                    1,
                );
            },
        }
        verdict
    }

    /// Screens the command at the time of the system clock.
    pub fn listen_for_ai_decisions(&mut self, ai_decision: AIDecision) -> (r: Result<
        TradingSignal,
        CommandRejection,
    >)
        ensures
            final(self).config == old(self).config,
            final(self).is_connected == old(self).is_connected,
            r matches Ok(signal) ==> is_signal_of(signal, ai_decision) && ai_decision.confidence
                >= old(self).config.confidence_threshold,
            ai_decision.confidence < old(self).config.confidence_threshold ==> r is Err,
            ai_decision.action == AIAction::Hold ==> r is Err,
            exists|now: i64| #[trigger] is_verdict_on(r, old(self).config, ai_decision, now),
            final(self).metrics == (AIMetrics {
                decisions_received: saturating_sum(old(self).metrics.decisions_received, 1),
                decisions_processed: if r is Ok {
                    saturating_sum(old(self).metrics.decisions_processed, 1)
                } else {
                    old(self).metrics.decisions_processed
                },
                decisions_rejected: if r is Err {
                    saturating_sum(old(self).metrics.decisions_rejected, 1)
                } else {
                    old(self).metrics.decisions_rejected
                },
                ..old(self).metrics
            }),
    {
        let now = now_millis();
        let r = self.process_ai_decision(ai_decision, now);
        assert(is_verdict_on(r, old(self).config, ai_decision, now));
        r
    }

    /// Records the outcome of a health check: the decision process counts
    /// as connected exactly if it answered; a check that failed is counted
    /// as a connection error.
    pub fn record_health(&mut self, answered: Option<bool>)
        ensures
            final(self).config == old(self).config,
            final(self).is_connected == (answered == Some(true)),
            final(self).metrics == (AIMetrics {
                brain_connection_errors: if answered is None {
                    saturating_sum(old(self).metrics.brain_connection_errors, 1)
                } else {
                    old(self).metrics.brain_connection_errors
                },
                ..old(self).metrics
            }),
    {
        match answered {
            Some(healthy) => {
                self.is_connected = healthy;
            },
            None => {
                self.is_connected = false;
                self.metrics.brain_connection_errors = saturating_add(
                    self.metrics.brain_connection_errors,
                    1,
                );
            },
        }
    }
}

/// The market event with the identifier `event_id`, stamped `now`, without
/// metadata.
pub fn market_event_at(
    symbol: String,
    price: u64,
    volume: u64,
    event_type: MarketEventType,
    event_id: String,
    now: i64,
) -> (r: MarketEvent)
    ensures
        r.event_id == event_id,
        r.symbol == symbol,
        r.price == price,
        r.volume == volume,
        r.timestamp == now,
        r.event_type == event_type,
        r.metadata@.len() == 0,
{
    MarketEvent { event_id, symbol, price, volume, timestamp: now, event_type, metadata: Vec::new() }
}

/// A market event with a fresh identifier, stamped with the time of the
/// system clock, without metadata.
pub fn create_market_event(symbol: String, price: u64, volume: u64, event_type: MarketEventType)
    -> (r: MarketEvent)
    ensures
        r.symbol == symbol,
        r.price == price,
        r.volume == volume,
        r.event_type == event_type,
        r.metadata@.len() == 0,
        r.event_id@.len() == 36,
{
    let id = new_uuid();
    let now = now_millis();
    market_event_at(symbol, price, volume, event_type, id, now)
}

} // verus!
