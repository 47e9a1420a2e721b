//! The risk gate: every trading signal is approved, with a size and a risk
//! score, or rejected.

use vstd::prelude::*;
use crate::fixed::{
    lemma_product_fits, lemma_scaled_product_monotonic, lemma_scaled_ratio_at_most_one,
    scaled_ratio, SCALE,
};
use crate::modules::strategy::{StrategyType, TradingSignal};
use crate::platform::now_millis;

verus! {

/// The global limits of the risk gate, in millionths.
#[derive(Debug, Clone, Copy, PartialEq, Eq, Structural)]
pub struct RiskParameters {
    pub max_position_size: u64,
    pub max_daily_loss: u64,
    pub min_confidence_threshold: u64,
}

/// The risk weight of each kind of strategy, as fractions in millionths.
#[derive(Debug, Clone, Copy, PartialEq, Eq, Structural)]
pub struct RiskWeights {
    pub token_sniping: u64,
    pub arbitrage: u64,
    pub momentum_trading: u64,
    pub soul_meteor_sniping: u64,
    pub meteora_damm: u64,
    pub developer_tracking: u64,
    pub axiom_meme_coin: u64,
    pub ai_decision: u64,
}

impl RiskWeights {
    /// The weight of the strategy kind `kind`.
    pub open spec fn weight(&self, kind: StrategyType) -> u64 {
        match kind {
            StrategyType::TokenSniping => self.token_sniping,
            StrategyType::Arbitrage => self.arbitrage,
            StrategyType::MomentumTrading => self.momentum_trading,
            StrategyType::SoulMeteorSniping => self.soul_meteor_sniping,
            StrategyType::MeteoraDAMM => self.meteora_damm,
            StrategyType::DeveloperTracking => self.developer_tracking,
            StrategyType::AxiomMemeCoin => self.axiom_meme_coin,
            StrategyType::AIDecision => self.ai_decision,
        }
    }

    /// The weight of the strategy kind `kind`.
    pub fn weight_of(&self, kind: StrategyType) -> (r: u64)
        ensures
            r == self.weight(kind),
    {
        match kind {
            StrategyType::TokenSniping => self.token_sniping,
            StrategyType::Arbitrage => self.arbitrage,
            StrategyType::MomentumTrading => self.momentum_trading,
            StrategyType::SoulMeteorSniping => self.soul_meteor_sniping,
            StrategyType::MeteoraDAMM => self.meteora_damm,
            StrategyType::DeveloperTracking => self.developer_tracking,
            StrategyType::AxiomMemeCoin => self.axiom_meme_coin,
            StrategyType::AIDecision => self.ai_decision,
        }
    }
}

/// The weights that the manager uses unless it is given others.
pub open spec fn standard_weights() -> RiskWeights {
    RiskWeights {
        token_sniping: 300_000,
        arbitrage: 100_000,
        momentum_trading: 200_000,
        soul_meteor_sniping: 250_000,
        meteora_damm: 800_000,
        developer_tracking: 700_000,
        axiom_meme_coin: 900_000,
        ai_decision: 700_000,
    }
}

impl Default for RiskWeights {
    fn default() -> (r: Self)
        ensures
            r == standard_weights(),
    {
        RiskWeights {
            token_sniping: 300_000,
            arbitrage: 100_000,
            momentum_trading: 200_000,
            soul_meteor_sniping: 250_000,
            meteora_damm: 800_000,
            developer_tracking: 700_000,
            axiom_meme_coin: 900_000,
            ai_decision: 700_000,
        }
    }
}

/// A signal that passed the risk gate. The approved quantity and the risk
/// score are in millionths.
#[derive(Debug)]
pub struct ApprovedSignal {
    pub original_signal: TradingSignal,
    pub approved_quantity: u64,
    pub risk_score: u64,
    pub approval_timestamp: i64,
}

impl Clone for ApprovedSignal {
    fn clone(&self) -> (r: Self)
        ensures
            r == *self,
    {
        ApprovedSignal {
            original_signal: self.original_signal.clone(),
            approved_quantity: self.approved_quantity,
            risk_score: self.risk_score,
            approval_timestamp: self.approval_timestamp,
        }
    }
}

impl ApprovedSignal {
    /// An approved signal is well formed when its signal is, its quantity is
    /// positive and no more than was asked for, and its risk score is at most
    /// one.
    pub open spec fn well_formed(&self) -> bool {
        &&& self.original_signal.well_formed()
        &&& 0 < self.approved_quantity <= self.original_signal.quantity
        &&& self.risk_score <= SCALE
    }

    /// The value of the approved trade: approved quantity times target price.
    pub open spec fn notional(&self) -> int {
        crate::fixed::scaled_product(
            self.approved_quantity as int,
            self.original_signal.target_price as int,
        )
    }

    /// Whether the approved signal is well formed.
    pub fn is_well_formed(&self) -> (r: bool)
        ensures
            r == self.well_formed(),
    {
        self.original_signal.is_well_formed() && 0 < self.approved_quantity
            && self.approved_quantity <= self.original_signal.quantity && self.risk_score <= SCALE
    }

    /// The value of a well-formed approved trade is within the engine's
    /// limit.
    pub proof fn lemma_notional_within_limit(&self)
        requires
            self.well_formed(),
        ensures
            0 <= self.notional() <= crate::fixed::MAX_NOTIONAL,
    {
        lemma_scaled_product_monotonic(
            self.approved_quantity as int,
            self.original_signal.quantity as int,
            self.original_signal.target_price as int,
            self.original_signal.target_price as int,
        );
    }
}

/// Why the risk gate rejected a signal.
#[derive(Debug, Clone, Copy, PartialEq, Eq, Structural)]
pub enum RiskRejection {
    /// The signal is not well formed.
    InvalidSignal,
    /// The confidence is below the threshold.
    LowConfidence,
    /// No positive quantity can be approved.
    PositionLimit,
    /// The day's loss has reached the limit.
    DailyLossLimit,
}

/// The quantity that the manager approves of a signal: what it asks for, held
/// to the largest position.
pub open spec fn approved_quantity(params: RiskParameters, signal: TradingSignal) -> u64 {
    if signal.quantity > params.max_position_size {
        params.max_position_size
    } else {
        signal.quantity
    }
}

/// The approved quantity as a share of the largest position.
pub open spec fn size_share(params: RiskParameters, signal: TradingSignal) -> int {
    if params.max_position_size == 0 {
        0
    } else {
        scaled_ratio(approved_quantity(params, signal) as int, params.max_position_size as int)
    }
}

/// Ten times the risk score before it is held between zero and one: four
/// parts of the missing confidence, three of the size share and three of
/// the strategy's weight.
pub open spec fn risk_points(
    params: RiskParameters,
    weights: RiskWeights,
    signal: TradingSignal,
) -> int {
    4 * (SCALE - signal.confidence) + 3 * size_share(params, signal) + 3 * weights.weight(
        signal.strategy_type,
    )
}

/// The risk score of a signal: a tenth of its risk points, rounded down and
/// held between zero and one.
pub open spec fn risk_score(
    params: RiskParameters,
    weights: RiskWeights,
    signal: TradingSignal,
) -> int {
    let points = risk_points(params, weights, signal);
    if points <= 0 {
        0
    } else if points / 10 >= SCALE {
        SCALE as int
    } else {
        points / 10
    }
}

/// Whether the day's profit and loss leaves room to trade: it is above the
/// negated loss limit.
pub open spec fn within_daily_loss(params: RiskParameters, daily_pnl: i64) -> bool {
    daily_pnl > -(params.max_daily_loss as int)
}

/// The rejection that the manager gives a signal, if it gives one. The checks
/// come in this order: form, confidence, size, daily loss.
pub open spec fn rejection(
    params: RiskParameters,
    daily_pnl: i64,
    signal: TradingSignal,
) -> Option<RiskRejection> {
    if !signal.well_formed() {
        Some(RiskRejection::InvalidSignal)
    } else if signal.confidence < params.min_confidence_threshold {
        Some(RiskRejection::LowConfidence)
    } else if approved_quantity(params, signal) == 0 {
        Some(RiskRejection::PositionLimit)
    } else if !within_daily_loss(params, daily_pnl) {
        Some(RiskRejection::DailyLossLimit)
    } else {
        None
    }
}

/// `n` plus one, unless `n` is the largest number.
pub open spec fn bumped(n: u64) -> u64 {
    if n < u64::MAX {
        (n + 1) as u64
    } else {
        n
    }
}

/// The risk gate, with the day's profit and loss and the counts of what it
/// approved and rejected.
pub struct RiskManager {
    pub risk_params: RiskParameters,
    pub risk_weights: RiskWeights,
    pub daily_pnl: i64,
    pub is_running: bool,
    pub approved_count: u64,
    pub rejected_count: u64,
}

impl RiskManager {
    /// A manager with the given limits and the usual weights, with nothing
    /// gained or lost yet, not running.
    pub fn new(risk_params: RiskParameters) -> (r: Self)
        ensures
            r == (RiskManager {
                risk_params,
                risk_weights: standard_weights(),
                daily_pnl: 0,
                is_running: false,
                approved_count: 0,
                rejected_count: 0,
            }),
    {
        RiskManager {
            risk_params,
            risk_weights: RiskWeights::default(),
            daily_pnl: 0,
            is_running: false,
            approved_count: 0,
            rejected_count: 0,
        }
    }

    /// Marks the manager as running.
    pub fn start(&mut self)
        ensures
            *final(self) == (RiskManager { is_running: true, ..*old(self) }),
    {
        self.is_running = true;
    }

    /// Marks the manager as stopped.
    pub fn stop(&mut self)
        ensures
            *final(self) == (RiskManager { is_running: false, ..*old(self) }),
    {
        self.is_running = false;
    }

    /// The quantity that the manager approves of `signal`.
    pub fn check_position_limits(&self, signal: &TradingSignal) -> (r: u64)
        ensures
            r == approved_quantity(self.risk_params, *signal),
            r <= signal.quantity,
            r <= self.risk_params.max_position_size,
    {
        if signal.quantity > self.risk_params.max_position_size {
            self.risk_params.max_position_size
        } else {
            signal.quantity
        }
    }

    /// Whether the day's profit and loss leaves room to trade.
    pub fn check_daily_loss_limits(&self) -> (r: bool)
        ensures
            r == within_daily_loss(self.risk_params, self.daily_pnl),
    {
        (self.daily_pnl as i128) > -(self.risk_params.max_daily_loss as i128)
    }

    /// The risk score of `signal`.
    pub fn calculate_risk_score(&self, signal: &TradingSignal) -> (r: u64)
        ensures
            r as int == risk_score(self.risk_params, self.risk_weights, *signal),
            r <= SCALE,
    {
        let approved = self.check_position_limits(signal);
        let max = self.risk_params.max_position_size;
        let share: u128 = if max == 0 {
            0
        } else {
            proof {
                lemma_product_fits(approved, SCALE);
                lemma_scaled_ratio_at_most_one(approved as int, max as int);
            }
            (approved as u128) * (SCALE as u128) / (max as u128)
        };
        let weight = self.risk_weights.weight_of(signal.strategy_type);
        let mut gain: u128 = 3 * share + 3 * (weight as u128);
        let mut loss: u128 = 0;
        if signal.confidence <= SCALE {
            gain = gain + 4 * ((SCALE - signal.confidence) as u128);
        } else {
            loss = 4 * ((signal.confidence - SCALE) as u128);
        }
        assert(gain - loss == risk_points(self.risk_params, self.risk_weights, *signal));
        if gain <= loss {
            0
        } else if (gain - loss) / 10 >= SCALE as u128 {
            SCALE
        } else {
            ((gain - loss) / 10) as u64
        }
    }

    /// Passes `signal` through the manager at time `now`. A signal is rejected
    /// for the first of these that holds: it is not well formed; its
    /// confidence is below the threshold; no positive quantity can be
    /// approved; the day's loss has reached the limit. Otherwise it is
    /// approved with its quantity held to the largest position and with its
    /// risk score. The manager counts what it approves and what it rejects.
    pub fn evaluate_signal(&mut self, signal: TradingSignal, now: i64) -> (r: Result<
        ApprovedSignal,
        RiskRejection,
    >)
        ensures
            match rejection(old(self).risk_params, old(self).daily_pnl, signal) {
                Some(reason) => r == Err::<ApprovedSignal, RiskRejection>(reason),
                None => r == Ok::<ApprovedSignal, RiskRejection>(
                    ApprovedSignal {
                        original_signal: signal,
                        approved_quantity: approved_quantity(old(self).risk_params, signal),
                        risk_score: risk_score(
                            old(self).risk_params,
                            old(self).risk_weights,
                            signal,
                        ) as u64,
                        approval_timestamp: now,
                    },
                ),
            },
            r matches Ok(approved) ==> {
                &&& approved.well_formed()
                &&& approved.approved_quantity <= signal.quantity
                &&& approved.approved_quantity <= old(self).risk_params.max_position_size
            },
            r is Ok ==> *final(self) == (RiskManager {
                approved_count: bumped(old(self).approved_count),
                ..*old(self)
            }),
            r is Err ==> *final(self) == (RiskManager {
                rejected_count: bumped(old(self).rejected_count),
                ..*old(self)
            }),
    {
        let verdict: Option<RiskRejection> = if !signal.is_well_formed() {
            Some(RiskRejection::InvalidSignal)
        } else if signal.confidence < self.risk_params.min_confidence_threshold {
            Some(RiskRejection::LowConfidence)
        } else if self.check_position_limits(&signal) == 0 {
            Some(RiskRejection::PositionLimit)
        } else if !self.check_daily_loss_limits() {
            Some(RiskRejection::DailyLossLimit)
        } else {
            None
        };
        match verdict {
            Some(reason) => {
                if self.rejected_count < u64::MAX {
                    self.rejected_count = self.rejected_count + 1;
                }
                Err(reason)
            },
            None => {
                let approved_quantity = self.check_position_limits(&signal);
                let risk_score = self.calculate_risk_score(&signal);
                if self.approved_count < u64::MAX {
                    self.approved_count = self.approved_count + 1;
                }
                Ok(
                    ApprovedSignal {
                        original_signal: signal,
                        approved_quantity,
                        risk_score,
                        approval_timestamp: now,
                    },
                )
            },
        }
    }

    /// Passes `signal` through the manager at the time of the system clock.
    pub fn evaluate_signal_now(&mut self, signal: TradingSignal) -> (r: Result<
        ApprovedSignal,
        RiskRejection,
    >)
        ensures
            match rejection(old(self).risk_params, old(self).daily_pnl, signal) {
                Some(reason) => r == Err::<ApprovedSignal, RiskRejection>(reason),
                None => r matches Ok(approved) && approved.original_signal == signal
                    && approved.approved_quantity == approved_quantity(
                    old(self).risk_params,
                    signal,
                ) && approved.risk_score as int == risk_score(
                    old(self).risk_params,
                    old(self).risk_weights,
                    signal,
                ) && approved.well_formed(),
            },
            r is Ok ==> *final(self) == (RiskManager {
                approved_count: bumped(old(self).approved_count),
                ..*old(self)
            }),
            r is Err ==> *final(self) == (RiskManager {
                rejected_count: bumped(old(self).rejected_count),
                ..*old(self)
            }),
    {
        let now = now_millis();
        self.evaluate_signal(signal, now)
    }

    /// Adds `pnl_change` to the day's profit and loss.
    pub fn update_daily_pnl(&mut self, pnl_change: i64)
        requires
            i64::MIN <= old(self).daily_pnl + pnl_change <= i64::MAX,
        ensures
            *final(self) == (RiskManager {
                daily_pnl: (old(self).daily_pnl + pnl_change) as i64,
                ..*old(self)
            }),
    {
        self.daily_pnl = self.daily_pnl + pnl_change;
    }

    /// The day's profit and loss.
    pub fn get_daily_pnl(&self) -> (r: i64)
        ensures
            r == self.daily_pnl,
    {
        self.daily_pnl
    }
}

/// Whatever the manager approves is no larger than what was asked for and no
/// larger than the largest position.
pub proof fn lemma_approved_within_limits(
    params: RiskParameters,
    daily_pnl: i64,
    signal: TradingSignal,
)
    requires
        rejection(params, daily_pnl, signal) is None,
    ensures
        0 < approved_quantity(params, signal) <= signal.quantity,
        approved_quantity(params, signal) <= params.max_position_size,
        signal.confidence >= params.min_confidence_threshold,
{
}

} // verus!
