//! The fee-collection strategy on new pools: which launches are worth a
//! position, how large the position is, how fees accrue to it and when it
//! is closed.

use vstd::prelude::*;
use vstd::string::StringExecFns;
use crate::fixed::{lemma_scaled_product_at_most, scaled_mul, scaled_product, SCALE};
use crate::fixed::{saturating_add, saturating_sum};
use crate::modules::strategy::{StrategyType, TradeAction, TradingSignal};
use crate::lists::{lemma_picked_length, picked};
use crate::platform::{new_uuid, now_millis, random_word};
use crate::text::{decimal_text, push_number};

verus! {

/// Where a token was launched.
#[derive(Debug)]
pub enum LaunchPlatform {
    Launchcoin,
    PumpFun,
    BonkLaunchpad,
    Other(String),
}

impl Clone for LaunchPlatform {
    fn clone(&self) -> (r: Self)
        ensures
            r == *self,
    {
        match self {
            LaunchPlatform::Launchcoin => LaunchPlatform::Launchcoin,
            LaunchPlatform::PumpFun => LaunchPlatform::PumpFun,
            LaunchPlatform::BonkLaunchpad => LaunchPlatform::BonkLaunchpad,
            LaunchPlatform::Other(name) => LaunchPlatform::Other(name.clone()),
        }
    }
}

/// How many sniper bots are expected on a launch.
#[derive(Debug, Clone, Copy, PartialEq, Eq, Structural, Hash)]
pub enum SniperActivity {
    VeryHigh,
    High,
    Medium,
    Low,
}

/// How the fees of a pool decay.
#[derive(Debug, Clone, Copy, PartialEq, Eq, Structural, Hash)]
pub enum FeeSchedule {
    Exponential,
    Linear,
    Fixed,
}

/// How risky an opportunity is.
#[derive(Debug, Clone, Copy, PartialEq, Eq, Structural, Hash)]
pub enum DAMMRiskLevel {
    Extreme,
    High,
    Medium,
}

/// In what fees are collected.
#[derive(Debug, Clone, Copy, PartialEq, Eq, Structural, Hash)]
pub enum FeeCollectionMode {
    SOLOnly,
    TokenOnly,
    Balanced,
}

/// When a position is closed. Amounts are in millionths, times in minutes.
#[derive(Debug, Clone, Copy, PartialEq, Eq, Structural)]
pub enum ExitStrategy {
    FeeTarget(u64),
    TimeLimit(u64),
    TokenPriceStop(u64),
    Immediate,
}

/// A launch that may be worth a position. The position size is in
/// millionths.
#[derive(Debug)]
pub struct DAMMOpportunity {
    pub token_address: String,
    pub token_symbol: String,
    pub pool_address: Option<String>,
    pub launch_platform: LaunchPlatform,
    pub estimated_sniper_activity: SniperActivity,
    pub recommended_position_size: u64,
    pub fee_schedule: FeeSchedule,
    pub risk_level: DAMMRiskLevel,
}

impl Clone for DAMMOpportunity {
    fn clone(&self) -> (r: Self)
        ensures
            r == *self,
    {
        DAMMOpportunity {
            token_address: self.token_address.clone(),
            token_symbol: self.token_symbol.clone(),
            pool_address: match &self.pool_address {
                Some(a) => Some(a.clone()),
                None => None,
            },
            launch_platform: self.launch_platform.clone(),
            estimated_sniper_activity: self.estimated_sniper_activity,
            recommended_position_size: self.recommended_position_size,
            fee_schedule: self.fee_schedule,
            risk_level: self.risk_level,
        }
    }
}

/// An open position. Amounts are in millionths, the entry time in
/// milliseconds since the Unix epoch.
#[derive(Debug)]
pub struct DAMMPosition {
    pub opportunity: DAMMOpportunity,
    pub sol_amount: u64,
    pub token_amount: u64,
    pub entry_timestamp: i64,
    pub fees_collected_sol: u64,
    pub target_fee_amount: u64,
    pub exit_strategy: ExitStrategy,
}

/// The configuration of the strategy. Amounts are in millionths.
#[derive(Debug)]
pub struct DAMMConfig {
    pub max_position_size_sol: u64,
    pub min_expected_sniper_volume: u64,
    pub preferred_platforms: Vec<LaunchPlatform>,
    pub max_token_age_minutes: u32,
    pub fee_collection_mode: FeeCollectionMode,
}

impl Default for DAMMConfig {
    /// Positions of up to 5, an expected volume of 100, the two platforms
    /// with the most sniper bots, tokens of up to 5 minutes, fees in SOL.
    fn default() -> (r: Self)
        ensures
            r.max_position_size_sol == 5_000_000,
            r.min_expected_sniper_volume == 100_000_000,
            r.preferred_platforms@.len() == 2,
            r.preferred_platforms@[0] is Launchcoin,
            r.preferred_platforms@[1] is PumpFun,
            r.max_token_age_minutes == 5,
            r.fee_collection_mode == FeeCollectionMode::SOLOnly,
    {
        let mut preferred_platforms: Vec<LaunchPlatform> = Vec::new();
        preferred_platforms.push(LaunchPlatform::Launchcoin);
        preferred_platforms.push(LaunchPlatform::PumpFun);
        DAMMConfig {
            max_position_size_sol: 5_000_000,
            min_expected_sniper_volume: 100_000_000,
            preferred_platforms,
            max_token_age_minutes: 5,
            fee_collection_mode: FeeCollectionMode::SOLOnly,
        }
    }
}

/// Whether two platforms are of the same kind; two other platforms are,
/// whatever their names.
pub open spec fn same_kind(a: LaunchPlatform, b: LaunchPlatform) -> bool {
    match (a, b) {
        (LaunchPlatform::Launchcoin, LaunchPlatform::Launchcoin) => true,
        (LaunchPlatform::PumpFun, LaunchPlatform::PumpFun) => true,
        (LaunchPlatform::BonkLaunchpad, LaunchPlatform::BonkLaunchpad) => true,
        (LaunchPlatform::Other(_), LaunchPlatform::Other(_)) => true,
        _ => false,
    }
}

/// Whether two platforms are of the same kind.
pub fn is_same_kind(a: &LaunchPlatform, b: &LaunchPlatform) -> (r: bool)
    ensures
        r == same_kind(*a, *b),
{
    match (a, b) {
        (LaunchPlatform::Launchcoin, LaunchPlatform::Launchcoin) => true,
        (LaunchPlatform::PumpFun, LaunchPlatform::PumpFun) => true,
        (LaunchPlatform::BonkLaunchpad, LaunchPlatform::BonkLaunchpad) => true,
        (LaunchPlatform::Other(_), LaunchPlatform::Other(_)) => true,
        _ => false,
    }
}

/// Whether an opportunity is worth a position: many sniper bots are
/// expected, and the platform is of a preferred kind.
pub open spec fn worthwhile(preferred: Seq<LaunchPlatform>, opportunity: DAMMOpportunity) -> bool {
    &&& (opportunity.estimated_sniper_activity == SniperActivity::VeryHigh
        || opportunity.estimated_sniper_activity == SniperActivity::High)
    &&& exists|i: int|
        0 <= i < preferred.len() && same_kind(#[trigger] preferred[i], opportunity.launch_platform)
}

/// The share of the largest position that is taken, by the expected sniper
/// activity.
pub open spec fn size_factor(activity: SniperActivity) -> u64 {
    match activity {
        SniperActivity::VeryHigh => 1_000_000,
        SniperActivity::High => 700_000,
        SniperActivity::Medium => 400_000,
        SniperActivity::Low => 200_000,
    }
}

/// The confidence in an opportunity, by the expected sniper activity and the
/// platform.
pub open spec fn opportunity_confidence(
    activity: SniperActivity,
    platform: LaunchPlatform,
) -> u64 {
    match (activity, platform) {
        (SniperActivity::VeryHigh, LaunchPlatform::Launchcoin) => 800_000,
        (SniperActivity::High, LaunchPlatform::PumpFun) => 700_000,
        (SniperActivity::High, LaunchPlatform::Launchcoin) => 750_000,
        (SniperActivity::Medium, _) => 500_000,
        (SniperActivity::Low, _) => 300_000,
        _ => 400_000,
    }
}

/// The target price of every signal of the strategy: a thousandth.
pub const EARLY_ENTRY_PRICE: u64 = 1_000;

impl DAMMOpportunity {
    /// The confidence in the opportunity.
    pub fn calculate_confidence(&self) -> (r: u64)
        ensures
            r == opportunity_confidence(self.estimated_sniper_activity, self.launch_platform),
    {
        match (&self.estimated_sniper_activity, &self.launch_platform) {
            (SniperActivity::VeryHigh, LaunchPlatform::Launchcoin) => 800_000,
            (SniperActivity::High, LaunchPlatform::PumpFun) => 700_000,
            (SniperActivity::High, LaunchPlatform::Launchcoin) => 750_000,
            (SniperActivity::Medium, _) => 500_000,
            (SniperActivity::Low, _) => 300_000,
            _ => 400_000,
        }
    }

    /// The signal to buy the token of the opportunity, under the identifier
    /// `signal_id` and stamped `now`.
    pub fn to_trading_signal_at(&self, signal_id: String, now: i64) -> (r: TradingSignal)
        ensures
            r.signal_id == signal_id,
            r.symbol@ == self.token_symbol@,
            r.action == TradeAction::Buy,
            r.quantity == self.recommended_position_size,
            r.target_price == EARLY_ENTRY_PRICE,
            r.confidence == opportunity_confidence(
                self.estimated_sniper_activity,
                self.launch_platform,
            ),
            r.timestamp == now,
            r.strategy_type == StrategyType::MeteoraDAMM,
    {
        TradingSignal {
            signal_id,
            symbol: self.token_symbol.clone(),
            action: TradeAction::Buy,
            quantity: self.recommended_position_size,
            target_price: EARLY_ENTRY_PRICE,
            confidence: self.calculate_confidence(),
            timestamp: now,
            strategy_type: StrategyType::MeteoraDAMM,
        }
    }

    /// The signal to buy the token of the opportunity, under a fresh
    /// identifier and stamped with the time of the system clock.
    pub fn to_trading_signal(&self) -> (r: TradingSignal)
        ensures
            r.symbol@ == self.token_symbol@,
            r.action == TradeAction::Buy,
            r.quantity == self.recommended_position_size,
            r.target_price == EARLY_ENTRY_PRICE,
            r.confidence == opportunity_confidence(
                self.estimated_sniper_activity,
                self.launch_platform,
            ),
            r.strategy_type == StrategyType::MeteoraDAMM,
            r.signal_id@.len() == 36,
    {
        self.to_trading_signal_at(new_uuid(), now_millis())
    }
}

/// The whole minutes from `from` to `to`, negative where `to` is the
/// earlier, rounded towards zero.
pub open spec fn minutes_between(from: i64, to: i64) -> int {
    if to >= from {
        (to - from) / 60_000
    } else {
        -((from - to) / 60_000)
    }
}

/// The whole minutes from `from` to `to`.
pub fn minutes_elapsed(from: i64, to: i64) -> (r: i64)
    ensures
        r as int == minutes_between(from, to),
{
    if to >= from {
        (((to as i128) - (from as i128)) / 60_000) as i64
    } else {
        -((((from as i128) - (to as i128)) / 60_000) as i64)
    }
}

/// The chance, as a fraction, that a position collects a fee in one round.
pub open spec fn fee_chance(activity: SniperActivity) -> u64 {
    match activity {
        SniperActivity::VeryHigh => 300_000,
        SniperActivity::High => 200_000,
        _ => 100_000,
    }
}

/// The fraction between zero and one that a random word stands for.
pub open spec fn fraction_of(word: u64) -> u64 {
    word % SCALE
}

/// The fees of a position after one round at `now`, given two random
/// words: in its first five minutes, and if the first word falls below its
/// chance, the position collects twice the fraction of the second word.
pub open spec fn fees_after(position: DAMMPosition, now: i64, chance: u64, amount: u64) -> u64 {
    if minutes_between(position.entry_timestamp, now) < 5 && fraction_of(chance) < fee_chance(
        position.opportunity.estimated_sniper_activity,
    ) {
        saturating_sum(position.fees_collected_sol, (2 * fraction_of(amount)) as u64)
    } else {
        position.fees_collected_sol
    }
}

/// Whether a position with the fees `fees` is closed at `now`: its fee
/// target is met; its time is up; more than half an hour has passed with
/// fees below a tenth; or, for an immediate exit, it has collected a fee.
pub open spec fn exits(position: DAMMPosition, fees: u64, now: i64) -> bool {
    let minutes = minutes_between(position.entry_timestamp, now);
    match position.exit_strategy {
        ExitStrategy::FeeTarget(target) => fees >= target,
        ExitStrategy::TimeLimit(limit) => minutes >= limit,
        ExitStrategy::TokenPriceStop(_) => minutes > 30 && fees < 100_000,
        ExitStrategy::Immediate => fees > 0,
    }
}

/// For each position, whether it stays open after a round at `now` with
/// the random words `rolls`.
pub open spec fn staying(positions: Seq<DAMMPosition>, now: i64, rolls: Seq<(u64, u64)>) -> Seq<
    bool,
> {
    Seq::new(
        positions.len(),
        |i: int| !exits(positions[i], fees_after(positions[i], now, rolls[i].0, rolls[i].1), now),
    )
}

/// Whether `sample` is the sample opportunity number `i` for a largest
/// position of `largest`.
pub open spec fn is_sample_opportunity(sample: DAMMOpportunity, i: int, largest: u64) -> bool {
    let activity = if i == 0 {
        SniperActivity::VeryHigh
    } else if i == 1 {
        SniperActivity::High
    } else {
        SniperActivity::Low
    };
    &&& sample.token_address@ == "token_address_"@ + decimal_text(i as nat)
    &&& sample.token_symbol@ == "EARLY"@ + decimal_text(i as nat)
    &&& sample.pool_address is None
    &&& sample.launch_platform == if i == 0 {
        LaunchPlatform::Launchcoin
    } else if i == 1 {
        LaunchPlatform::PumpFun
    } else {
        LaunchPlatform::BonkLaunchpad
    }
    &&& sample.estimated_sniper_activity == activity
    &&& sample.recommended_position_size as int == scaled_product(
        largest as int,
        size_factor(activity) as int,
    )
    &&& sample.fee_schedule == FeeSchedule::Exponential
    &&& sample.risk_level == DAMMRiskLevel::Extreme
}

/// Whether `kept` are those of the three sample opportunities `found`, for
/// a largest position of `largest`, that are worth a position, in their
/// order.
pub open spec fn is_scan_of(
    kept: Seq<DAMMOpportunity>,
    found: Seq<DAMMOpportunity>,
    preferred: Seq<LaunchPlatform>,
    largest: u64,
) -> bool {
    let worth = Seq::new(found.len(), |i: int| worthwhile(preferred, found[i]));
    let chosen = picked(worth, 3);
    &&& found.len() == 3
    &&& forall|i: int| 0 <= i < 3 ==> is_sample_opportunity(#[trigger] found[i], i, largest)
    &&& kept.len() == chosen.len()
    &&& forall|k: int| 0 <= k < chosen.len() ==> #[trigger] kept[k] == found[chosen[k]]
}

/// The strategy with its open positions.
#[derive(Debug)]
pub struct MeteoraDAMMStrategy {
    pub active_positions: Vec<DAMMPosition>,
    pub strategy_config: DAMMConfig,
}

/// Whether `after` holds the positions of `before` after one round at
/// `now` with the random words `rolls`: the positions that stay, in their
/// order, each with the fees it had collected by the end of the round.
pub open spec fn is_round(
    before: Seq<DAMMPosition>,
    after: Seq<DAMMPosition>,
    now: i64,
    rolls: Seq<(u64, u64)>,
) -> bool {
    let kept = picked(staying(before, now, rolls), before.len() as int);
    &&& after.len() == kept.len()
    &&& forall|k: int|
        0 <= k < kept.len() ==> #[trigger] after[k] == (DAMMPosition {
            fees_collected_sol: fees_after(
                before[kept[k]],
                now,
                rolls[kept[k]].0,
                rolls[kept[k]].1,
            ),
            ..before[kept[k]]
        })
}

impl MeteoraDAMMStrategy {
    /// A strategy with the configuration `config` and no position.
    pub fn new(config: DAMMConfig) -> (r: Self)
        ensures
            r.strategy_config == config,
            r.active_positions@.len() == 0,
    {
        MeteoraDAMMStrategy { active_positions: Vec::new(), strategy_config: config }
    }

    /// Whether `opportunity` is worth a position.
    pub fn evaluate_opportunity(&self, opportunity: &DAMMOpportunity) -> (r: bool)
        ensures
            r == worthwhile(self.strategy_config.preferred_platforms@, *opportunity),
    {
        match opportunity.estimated_sniper_activity {
            SniperActivity::VeryHigh | SniperActivity::High => {
                let preferred = &self.strategy_config.preferred_platforms;
                let mut i: usize = 0;
                while i < preferred.len()
                    invariant
                        i <= preferred@.len(),
                        preferred@ == self.strategy_config.preferred_platforms@,
                        opportunity.estimated_sniper_activity == SniperActivity::VeryHigh
                            || opportunity.estimated_sniper_activity == SniperActivity::High,
                        forall|j: int|
                            0 <= j < i ==> !same_kind(
                                #[trigger] preferred@[j],
                                opportunity.launch_platform,
                            ),
                    decreases preferred.len() - i,
                {
                    if is_same_kind(&preferred[i], &opportunity.launch_platform) {
                        assert(same_kind(preferred@[i as int], opportunity.launch_platform));
                        return true;
                    }
                    i += 1;
                }
                false
            },
            _ => false,
        }
    }

    /// The size of the position for the expected sniper activity: the
    /// largest position times the factor of the activity.
    pub fn calculate_position_size(&self, sniper_activity: &SniperActivity) -> (r: u64)
        ensures
            r as int == scaled_product(
                self.strategy_config.max_position_size_sol as int,
                size_factor(*sniper_activity) as int,
            ),
    {
        let factor: u64 = match sniper_activity {
            SniperActivity::VeryHigh => 1_000_000,
            SniperActivity::High => 700_000,
            SniperActivity::Medium => 400_000,
            SniperActivity::Low => 200_000,
        };
        proof {
            lemma_scaled_product_at_most(
                self.strategy_config.max_position_size_sol as int,
                factor as int,
            );
        }
        scaled_mul(self.strategy_config.max_position_size_sol, factor)
    }

    /// The three sample opportunities that stand in for a scan of the
    /// launches.
    pub fn find_early_tokens(&self) -> (r: Vec<DAMMOpportunity>)
        ensures
            r@.len() == 3,
            forall|i: int|
                0 <= i < 3 ==> is_sample_opportunity(
                    #[trigger] r@[i],
                    i,
                    self.strategy_config.max_position_size_sol,
                ),
    {
        let mut found: Vec<DAMMOpportunity> = Vec::new();
        let mut i: u64 = 0;
        while i < 3
            invariant
                i <= 3,
                found@.len() == i,
                forall|k: int|
                    0 <= k < i ==> is_sample_opportunity(
                        #[trigger] found@[k],
                        k,
                        self.strategy_config.max_position_size_sol,
                    ),
            decreases 3 - i,
        {
            let platform = if i == 0 {
                LaunchPlatform::Launchcoin
            } else if i == 1 {
                LaunchPlatform::PumpFun
            } else {
                LaunchPlatform::BonkLaunchpad
            };
            let activity = if i == 0 {
                SniperActivity::VeryHigh
            } else if i == 1 {
                SniperActivity::High
            } else {
                SniperActivity::Low
            };
            let mut token_address = String::from_str("token_address_");
            push_number(&mut token_address, i);
            let mut token_symbol = String::from_str("EARLY");
            push_number(&mut token_symbol, i);
            let ghost earlier = found@;
            found.push(
                DAMMOpportunity {
                    token_address,
                    token_symbol,
                    pool_address: None,
                    launch_platform: platform,
                    estimated_sniper_activity: activity,
                    recommended_position_size: self.calculate_position_size(&activity),
                    fee_schedule: FeeSchedule::Exponential,
                    risk_level: DAMMRiskLevel::Extreme,
                },
            );
            proof {
                assert forall|k: int| 0 <= k < i + 1 implies is_sample_opportunity(
                    #[trigger] found@[k],
                    k,
                    self.strategy_config.max_position_size_sol,
                ) by {
                    if k < i {
                        assert(found@[k] == earlier[k]);
                    }
                }
            }
            i += 1;
        }
        found
    }

    /// One scan of the launches: of the sample opportunities, those that
    /// are worth a position, in their order.
    pub fn scan_for_opportunities(&self) -> (r: Vec<DAMMOpportunity>)
        ensures
            exists|found: Seq<DAMMOpportunity>| #[trigger]
                is_scan_of(
                    r@,
                    found,
                    self.strategy_config.preferred_platforms@,
                    self.strategy_config.max_position_size_sol,
                ),
    {
        let found = self.find_early_tokens();
        let ghost all = found@;
        let ghost worth = Seq::new(
            all.len(),
            |i: int| worthwhile(self.strategy_config.preferred_platforms@, all[i]),
        );
        let mut kept: Vec<DAMMOpportunity> = Vec::new();
        for opportunity in it: found
            invariant
                it.seq() == all,
                all.len() == 3,
                worth == Seq::new(
                    all.len(),
                    |i: int| worthwhile(self.strategy_config.preferred_platforms@, all[i]),
                ),
                kept@.len() == picked(worth, it.index() as int).len(),
                forall|k: int|
                    0 <= k < kept@.len() ==> 0 <= #[trigger] picked(worth, it.index() as int)[k]
                        < it.index(),
                forall|k: int|
                    0 <= k < kept@.len() ==> #[trigger] kept@[k] == all[picked(
                        worth,
                        it.index() as int,
                    )[k]],
        {
            let ghost at = it.index() as int;
            let ghost earlier = kept@;
            let ghost chosen = picked(worth, at);
            assert(opportunity == all[at]);
            assert(worth[at] == worthwhile(self.strategy_config.preferred_platforms@, all[at]));
            if self.evaluate_opportunity(&opportunity) {
                kept.push(opportunity);
            }
            proof {
                let after = picked(worth, at + 1);
                assert forall|k: int| 0 <= k < kept@.len() implies 0 <= #[trigger] after[k] < at + 1
                    && kept@[k] == all[after[k]] by {
                    if k < earlier.len() {
                        assert(kept@[k] == earlier[k]);
                        assert(after[k] == chosen[k]);
                    }
                }
            }
        }
        assert(is_scan_of(
            kept@,
            all,
            self.strategy_config.preferred_platforms@,
            self.strategy_config.max_position_size_sol,
        ));
        kept
    }

    /// Takes a new position among the open ones.
    pub fn handle_new_position(&mut self, position: DAMMPosition)
        ensures
            final(self).active_positions@ == old(self).active_positions@.push(position),
            final(self).strategy_config == old(self).strategy_config,
    {
        self.active_positions.push(position);
    }

    /// One round over the open positions at `now`, with two random words
    /// for each: every position collects its fees of the round, and the
    /// positions that are then to be closed are closed. The others stay, in
    /// their order.
    pub fn manage_active_positions_with(&mut self, now: i64, rolls: &Vec<(u64, u64)>)
        requires
            rolls@.len() == old(self).active_positions@.len(),
        ensures
            final(self).strategy_config == old(self).strategy_config,
            is_round(old(self).active_positions@, final(self).active_positions@, now, rolls@),
    {
        let mut remaining: Vec<DAMMPosition> = Vec::new();
        std::mem::swap(&mut remaining, &mut self.active_positions);
        let ghost before = remaining@;
        let ghost flags = staying(before, now, rolls@);
        let total = remaining.len();
        assert(before.len() == total);
        let mut i: usize = 0;
        for position in it: remaining
            invariant
                it.seq() == before,
                i == it.index(),
                before.len() <= usize::MAX,
                rolls@.len() == before.len(),
                flags == staying(before, now, rolls@),
                self.strategy_config == old(self).strategy_config,
                self.active_positions@.len() == picked(flags, i as int).len(),
                forall|k: int|
                    0 <= k < self.active_positions@.len() ==> 0 <= #[trigger] picked(
                        flags,
                        i as int,
                    )[k] < i,
                forall|k: int|
                    0 <= k < self.active_positions@.len() ==> #[trigger] self.active_positions@[k]
                        == (DAMMPosition {
                        fees_collected_sol: fees_after(
                            before[picked(flags, i as int)[k]],
                            now,
                            rolls@[picked(flags, i as int)[k]].0,
                            rolls@[picked(flags, i as int)[k]].1,
                        ),
                        ..before[picked(flags, i as int)[k]]
                    }),
        {
            assert(i < before.len());
            let (chance, amount) = rolls[i];
            let minutes = minutes_elapsed(position.entry_timestamp, now);
            let limit: u64 = match position.opportunity.estimated_sniper_activity {
                SniperActivity::VeryHigh => 300_000,
                SniperActivity::High => 200_000,
                _ => 100_000,
            };
            let fees = if minutes < 5 && chance % SCALE < limit {
                saturating_add(position.fees_collected_sol, 2 * (amount % SCALE))
            } else {
                position.fees_collected_sol
            };
            assert(fees == fees_after(position, now, chance, amount));
            let should_exit = match position.exit_strategy {
                ExitStrategy::FeeTarget(target) => fees >= target,
                ExitStrategy::TimeLimit(limit_minutes) => (minutes as i128) >= (
                limit_minutes as i128),
                ExitStrategy::TokenPriceStop(_) => minutes > 30 && fees < 100_000,
                ExitStrategy::Immediate => fees > 0,
            };
            assert(should_exit == exits(position, fees, now));
            assert(flags[i as int] == !should_exit);
            let ghost earlier = self.active_positions@;
            let ghost chosen = picked(flags, i as int);
            if !should_exit {
                let mut kept = position;
                kept.fees_collected_sol = fees;
                self.active_positions.push(kept);
            }
            i += 1;
            proof {
                assert forall|k: int| 0 <= k < self.active_positions@.len() implies 0
                    <= #[trigger] picked(flags, i as int)[k] < i && self.active_positions@[k]
                    == (DAMMPosition {
                    fees_collected_sol: fees_after(
                        before[picked(flags, i as int)[k]],
                        now,
                        rolls@[picked(flags, i as int)[k]].0,
                        rolls@[picked(flags, i as int)[k]].1,
                    ),
                    ..before[picked(flags, i as int)[k]]
                }) by {
                    if k < earlier.len() {
                        assert(self.active_positions@[k] == earlier[k]);
                        assert(picked(flags, i as int)[k] == chosen[k]);
                    }
                }
            }
        }
    }

    /// One round over the open positions at the time of the system clock,
    /// with random words. No position is opened, and the configuration
    /// stays.
    pub fn manage_active_positions(&mut self)
        ensures
            final(self).strategy_config == old(self).strategy_config,
            final(self).active_positions@.len() <= old(self).active_positions@.len(),
            exists|now: i64, rolls: Seq<(u64, u64)>|
                rolls.len() == old(self).active_positions@.len() && #[trigger] is_round(
                    old(self).active_positions@,
                    final(self).active_positions@,
                    now,
                    rolls,
                ),
    {
        let mut rolls: Vec<(u64, u64)> = Vec::new();
        let mut i: usize = 0;
        while i < self.active_positions.len()
            invariant
                i <= self.active_positions@.len(),
                rolls@.len() == i,
            decreases self.active_positions.len() - i,
        {
            rolls.push((random_word(), random_word()));
            i += 1;
        }
        let ghost before = self.active_positions@;
        let now = now_millis();
        self.manage_active_positions_with(now, &rolls);
        proof {
            lemma_picked_length(staying(before, now, rolls@), before.len() as int);
            assert(is_round(before, self.active_positions@, now, rolls@));
        }
    }
}

} // verus!
