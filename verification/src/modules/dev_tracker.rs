//! The developer tracking strategy: money flows into wallets are watched,
//! wallets that behave like developers are tracked, and a funding of a
//! tracked wallet is taken for a token launch.

use vstd::prelude::*;
use vstd::string::StringExecFns;
use crate::fixed::SCALE;
use crate::modules::strategy::{StrategyType, TradeAction, TradingSignal};
use crate::platform::{new_uuid, now_millis, random_word};
use crate::lists::picked;
use crate::text::{decimal_text, push_number, push_signed_number, same_text, signed_text};

verus! {

/// How a wallet was funded.
#[derive(Debug, Clone, Copy, PartialEq, Eq, Structural, Hash)]
pub enum WalletType {
    Fresh,
    Aged,
    Mixed,
}

/// What a transfer was for.
#[derive(Debug, Clone, Copy, PartialEq, Eq, Structural, Hash)]
pub enum TransactionType {
    FundingFromExchange,
    WalletToWallet,
    TokenCreation,
    LiquidityProvision,
    TokenDump,
}

/// The tool that is used to snipe.
#[derive(Debug)]
pub enum SniperTool {
    Kabal,
    Other(String),
}

/// The preferred mix of fresh and aged funding, as percentages in
/// millionths.
#[derive(Debug, Clone, Copy, PartialEq, Eq, Structural)]
pub struct WalletRatio {
    pub fresh_percentage: u64,
    pub aged_percentage: u64,
}

/// What is known of a developer. Rates, scores and percentages are in
/// millionths.
#[derive(Debug)]
pub struct DeveloperProfile {
    pub wallet_address: String,
    pub wallet_type: WalletType,
    pub success_rate: u64,
    pub average_profit_percentage: u64,
    pub tokens_created_24h: u32,
    pub last_activity: i64,
    pub risk_score: u64,
    pub tracking_confidence: u64,
}

/// A token launch that was detected. Amounts and the probability are in
/// millionths.
#[derive(Debug)]
pub struct TokenLaunch {
    pub token_address: String,
    pub token_symbol: String,
    pub developer_wallet: String,
    pub launch_timestamp: i64,
    pub initial_market_cap: u64,
    pub liquidity_amount: u64,
    pub predicted_success_probability: u64,
    pub entry_window_seconds: u64,
}

/// A transfer between two wallets. The amount is in millionths.
#[derive(Debug)]
pub struct MoneyFlow {
    pub from_wallet: String,
    pub to_wallet: String,
    pub amount_sol: u64,
    pub timestamp: i64,
    pub transaction_type: TransactionType,
}

impl Clone for MoneyFlow {
    fn clone(&self) -> (r: Self)
        ensures
            r == *self,
    {
        MoneyFlow {
            from_wallet: self.from_wallet.clone(),
            to_wallet: self.to_wallet.clone(),
            amount_sol: self.amount_sol,
            timestamp: self.timestamp,
            transaction_type: self.transaction_type,
        }
    }
}

/// The configuration of the tracker. Rates and amounts are in millionths.
#[derive(Debug)]
pub struct TrackingConfig {
    pub min_success_rate: u64,
    pub min_tokens_per_day: u32,
    pub max_entry_market_cap: u64,
    pub preferred_wallet_ratio: WalletRatio,
    pub max_tracking_wallets: usize,
    pub sniper_tool: SniperTool,
}

impl Default for TrackingConfig {
    /// A success rate of at least a quarter, at least 50 tokens a day, an
    /// entry at a market capitalization of up to 8000, a mix of 40% fresh
    /// and 60% aged funding, and up to 20 tracked wallets.
    fn default() -> (r: Self)
        ensures
            r.min_success_rate == 250_000,
            r.min_tokens_per_day == 50,
            r.max_entry_market_cap == 8_000_000_000,
            r.preferred_wallet_ratio == (WalletRatio {
                fresh_percentage: 40_000_000,
                aged_percentage: 60_000_000,
            }),
            r.max_tracking_wallets == 20,
            r.sniper_tool is Kabal,
    {
        TrackingConfig {
            min_success_rate: 250_000,
            min_tokens_per_day: 50,
            max_entry_market_cap: 8_000_000_000,
            preferred_wallet_ratio: WalletRatio {
                fresh_percentage: 40_000_000,
                aged_percentage: 60_000_000,
            },
            max_tracking_wallets: 20,
            sniper_tool: SniperTool::Kabal,
        }
    }
}

/// The number of the first `n` flows that are fundings from an exchange.
pub open spec fn fresh_count(flows: Seq<MoneyFlow>, n: int) -> int
    decreases n,
{
    if n <= 0 {
        0
    } else {
        fresh_count(flows, n - 1) + if flows[n - 1].transaction_type
            == TransactionType::FundingFromExchange {
            1int
        } else {
            0
        }
    }
}

/// How a wallet with `fresh` fundings from an exchange among `total`
/// transfers was funded: fresh above six tenths, aged below two tenths,
/// mixed between, and mixed without any transfer.
pub open spec fn funding_of(fresh: int, total: int) -> WalletType {
    if fresh * 10 > total * 6 {
        WalletType::Fresh
    } else if fresh * 10 < total * 2 {
        WalletType::Aged
    } else {
        WalletType::Mixed
    }
}

/// The success rate that is assumed of a wallet by its funding.
pub open spec fn assumed_success(wallet_type: WalletType) -> u64 {
    match wallet_type {
        WalletType::Mixed => 350_000,
        WalletType::Fresh => 250_000,
        WalletType::Aged => 300_000,
    }
}

/// Whether `profile` is the profile of the wallet `wallet` with the
/// transfers `activities`, as of `now`.
pub open spec fn is_profile_of(
    profile: DeveloperProfile,
    wallet: Seq<char>,
    activities: Seq<MoneyFlow>,
    now: i64,
) -> bool {
    let wallet_type = funding_of(
        fresh_count(activities, activities.len() as int),
        activities.len() as int,
    );
    &&& profile.wallet_address@ == wallet
    &&& profile.wallet_type == wallet_type
    &&& profile.success_rate == assumed_success(wallet_type)
    &&& profile.average_profit_percentage == 25_000_000
    &&& profile.tokens_created_24h == activities.len() as u32
    &&& profile.last_activity == now
    &&& profile.risk_score == 700_000
    &&& profile.tracking_confidence == 800_000
}

/// Whether a profile is worth tracking: its success rate and its tokens of
/// the day reach the least values, and its funding is mixed.
pub open spec fn trackable(config: TrackingConfig, profile: DeveloperProfile) -> bool {
    &&& profile.success_rate >= config.min_success_rate
    &&& profile.tokens_created_24h >= config.min_tokens_per_day
    &&& profile.wallet_type == WalletType::Mixed
}

/// Whether a transfer tells of a launch: it is a funding from an exchange
/// of more than five.
pub open spec fn tells_of_launch(flow: MoneyFlow) -> bool {
    flow.transaction_type == TransactionType::FundingFromExchange && flow.amount_sol > 5_000_000
}

/// The whole seconds of a time in milliseconds, rounded down.
pub open spec fn seconds_of(now: i64) -> int {
    now as int / 1000
}

/// Whether `launch` is the launch that the transfer `flow` to the developer
/// `profile` tells of, at `now` and with the serial number `serial`.
pub open spec fn is_launch_of(
    launch: TokenLaunch,
    flow: MoneyFlow,
    profile: DeveloperProfile,
    now: i64,
    serial: u16,
) -> bool {
    &&& launch.token_address@ == "new_token_"@ + signed_text(seconds_of(now))
    &&& launch.token_symbol@ == "DEV"@ + decimal_text(serial as nat)
    &&& launch.developer_wallet@ == flow.to_wallet@
    &&& launch.launch_timestamp == now
    &&& launch.initial_market_cap == 7_500_000_000
    &&& launch.liquidity_amount as int == crate::fixed::scaled_product(
        flow.amount_sol as int,
        800_000,
    )
    &&& launch.predicted_success_probability == profile.success_rate
    &&& launch.entry_window_seconds == 30
}

/// Whether `flow` is the sample transfer number `i` at `now`.
pub open spec fn is_sample_flow(flow: MoneyFlow, i: int, now: i64) -> bool {
    &&& flow.from_wallet@ == "exchange_wallet_"@ + decimal_text(i as nat)
    &&& flow.to_wallet@ == "dev_wallet_"@ + decimal_text(i as nat)
    &&& flow.amount_sol == 10_000_000 + i * 5_000_000
    &&& flow.timestamp as int == crate::fixed::clamp(
        now - i * 600_000,
        i64::MIN as int,
        i64::MAX as int,
    )
    &&& flow.transaction_type == TransactionType::FundingFromExchange
}

/// The position of the profile of the wallet `wallet` among the first `n`
/// profiles, if it is among them.
pub open spec fn tracked_at(profiles: Seq<DeveloperProfile>, wallet: Seq<char>) -> Option<int> {
    crate::lists::index_in(
        Seq::new(profiles.len(), |i: int| profiles[i].wallet_address@),
        wallet,
    )
}

/// The success rate of a profile after an update with two random words: one
/// time in ten it moves by up to a twentieth either way, held between zero
/// and one.
pub open spec fn updated_success(rate: u64, chance: u64, amount: u64) -> u64 {
    if chance % SCALE < 100_000 {
        crate::fixed::clamp(rate + (amount % SCALE) / 10 - 50_000, 0, SCALE as int) as u64
    } else {
        rate
    }
}

/// The whole seconds of the time `now`.
pub fn seconds(now: i64) -> (r: i64)
    ensures
        r as int == seconds_of(now),
{
    if now >= 0 {
        now / 1000
    } else {
        let back: i64 = -(now + 1);
        let q: i64 = back / 1000;
        proof {
            let k = (back as int) % 1000;
            assert(back as int == (back as int / 1000) * 1000 + k) by {
                vstd::arithmetic::div_mod::lemma_fundamental_div_mod(back as int, 1000);
            }
            vstd::arithmetic::div_mod::lemma_fundamental_div_mod_converse(
                now as int,
                1000,
                -(q as int) - 1,
                999 - k,
            );
        }
        -q - 1
    }
}

/// Whether `after` is what is left of `before` when the developers at the
/// positions `kept` stay: they keep their order, each is at least as
/// successful as `least`, and each that went is at most as successful.
pub open spec fn is_pruning(
    after: Seq<DeveloperProfile>,
    before: Seq<DeveloperProfile>,
    kept: Seq<int>,
    least: u64,
) -> bool {
    &&& kept.len() == after.len()
    &&& forall|k: int| 0 <= k < kept.len() ==> 0 <= #[trigger] kept[k] < before.len()
    &&& forall|k: int, l: int| 0 <= k < l < kept.len() ==> kept[k] < kept[l]
    &&& forall|k: int| 0 <= k < kept.len() ==> #[trigger] after[k] == before[kept[k]]
    &&& forall|k: int| 0 <= k < kept.len() ==> (#[trigger] after[k]).success_rate >= least
    &&& forall|j: int|
        0 <= j < before.len() && !kept.contains(j) ==> (#[trigger] before[j]).success_rate <= least
}

/// Whether `after` is what is left of the transfers `before` when those
/// that are a day old or older at `now` are forgotten: the others, in their
/// order.
pub open spec fn is_recent_part(after: Seq<MoneyFlow>, before: Seq<MoneyFlow>, now: i64) -> bool {
    let recent = Seq::new(before.len(), |i: int| before[i].timestamp > now - 86_400_000);
    let kept = picked(recent, before.len() as int);
    &&& after.len() == kept.len()
    &&& forall|k: int| 0 <= k < kept.len() ==> #[trigger] after[k] == before[kept[k]]
}

/// Whether `samples` are the three sample transfers at `now`.
pub open spec fn are_samples(samples: Seq<MoneyFlow>, now: i64) -> bool {
    samples.len() == 3 && forall|i: int| 0 <= i < 3 ==> is_sample_flow(#[trigger] samples[i], i, now)
}

/// Whether `launches` are the launches that the transfers `flows` tell of
/// to the developers `tracked`, in the order of the transfers.
pub open spec fn are_launches(
    launches: Seq<TokenLaunch>,
    flows: Seq<MoneyFlow>,
    developers: Seq<DeveloperProfile>,
    now: i64,
    serial: u16,
) -> bool {
    let telling = Seq::new(
        flows.len(),
        |i: int| tracked_at(developers, flows[i].to_wallet@) is Some && tells_of_launch(flows[i]),
    );
    let kept = picked(telling, flows.len() as int);
    &&& launches.len() == kept.len()
    &&& forall|k: int|
        0 <= k < kept.len() ==> is_launch_of(
            #[trigger] launches[k],
            flows[kept[k]],
            developers[tracked_at(developers, flows[kept[k]].to_wallet@)->0],
            now,
            serial,
        )
}

/// What is known of a developer, as a value: the address of the wallet as
/// a text, and the numbers of the profile.
pub struct ProfileModel {
    pub wallet_address: Seq<char>,
    pub wallet_type: WalletType,
    pub success_rate: u64,
    pub average_profit_percentage: u64,
    pub tokens_created_24h: u32,
    pub last_activity: i64,
    pub risk_score: u64,
    pub tracking_confidence: u64,
}

impl View for DeveloperProfile {
    type V = ProfileModel;

    open spec fn view(&self) -> ProfileModel {
        ProfileModel {
            wallet_address: self.wallet_address@,
            wallet_type: self.wallet_type,
            success_rate: self.success_rate,
            average_profit_percentage: self.average_profit_percentage,
            tokens_created_24h: self.tokens_created_24h,
            last_activity: self.last_activity,
            risk_score: self.risk_score,
            tracking_confidence: self.tracking_confidence,
        }
    }
}

/// The profiles of a list of developers, as values.
pub open spec fn models(developers: Seq<DeveloperProfile>) -> Seq<ProfileModel> {
    Seq::new(developers.len(), |i: int| developers[i]@)
}

/// The profile of the wallet `wallet` with the transfers `activities`, as
/// of `now`: its funding by the share of fundings from an exchange, the
/// success rate that is assumed of that funding, and as many tokens of the
/// day as there are transfers.
pub open spec fn profile_model(wallet: Seq<char>, activities: Seq<MoneyFlow>, now: i64)
    -> ProfileModel {
    let wallet_type = funding_of(
        fresh_count(activities, activities.len() as int),
        activities.len() as int,
    );
    ProfileModel {
        wallet_address: wallet,
        wallet_type,
        success_rate: assumed_success(wallet_type),
        average_profit_percentage: 25_000_000,
        tokens_created_24h: activities.len() as u32,
        last_activity: now,
        risk_score: 700_000,
        tracking_confidence: 800_000,
    }
}

/// The transfers among the first `n` of `flows` that the wallet `wallet`
/// received, in their order.
pub open spec fn received(flows: Seq<MoneyFlow>, wallet: Seq<char>, n: int) -> Seq<MoneyFlow>
    decreases n,
{
    if n <= 0 {
        Seq::empty()
    } else if flows[n - 1].to_wallet@ == wallet {
        received(flows, wallet, n - 1).push(flows[n - 1])
    } else {
        received(flows, wallet, n - 1)
    }
}

/// Whether a wallet with the transfers `activities` is taken for a
/// developer that is worth tracking: it received at least three transfers,
/// and its profile reaches the least success rate and the least tokens of
/// the day with a mixed funding.
pub open spec fn earns_tracking(config: TrackingConfig, activities: Seq<MoneyFlow>) -> bool {
    let profile = profile_model(Seq::empty(), activities, 0);
    &&& activities.len() >= 3
    &&& profile.success_rate >= config.min_success_rate
    &&& profile.tokens_created_24h >= config.min_tokens_per_day
    &&& profile.wallet_type == WalletType::Mixed
}

/// The position of the profile of the wallet `wallet` among `profiles`, if
/// it is among them.
pub open spec fn model_at(profiles: Seq<ProfileModel>, wallet: Seq<char>) -> Option<int> {
    crate::lists::index_in(Seq::new(profiles.len(), |i: int| profiles[i].wallet_address), wallet)
}

/// The profiles with `profile` written among them: in the place of the
/// profile of the same wallet where there is one, else at the end.
pub open spec fn with_profile(profiles: Seq<ProfileModel>, profile: ProfileModel) -> Seq<
    ProfileModel,
> {
    match model_at(profiles, profile.wallet_address) {
        Some(at) => profiles.update(at, profile),
        None => profiles.push(profile),
    }
}

/// The profiles once the first `n` of the transfers `flows` were looked
/// over, as of `now`: each transfer whose receiver is worth tracking, by all
/// the transfers that it received, has the profile of the receiver written
/// among the profiles.
pub open spec fn looked_over(
    config: TrackingConfig,
    flows: Seq<MoneyFlow>,
    now: i64,
    profiles: Seq<ProfileModel>,
    n: int,
) -> Seq<ProfileModel>
    decreases n,
{
    if n <= 0 {
        profiles
    } else {
        let earlier = looked_over(config, flows, now, profiles, n - 1);
        let wallet = flows[n - 1].to_wallet@;
        let activities = received(flows, wallet, flows.len() as int);
        if earns_tracking(config, activities) {
            with_profile(earlier, profile_model(wallet, activities, now))
        } else {
            earlier
        }
    }
}

/// Whether `after` is what is left of the profiles `before` when those at
/// the positions `kept` stay: they keep their order, each is at least as
/// successful as `least`, and each that went is at most as successful.
pub open spec fn is_model_pruning(
    after: Seq<ProfileModel>,
    before: Seq<ProfileModel>,
    kept: Seq<int>,
    least: u64,
) -> bool {
    &&& kept.len() == after.len()
    &&& forall|k: int| 0 <= k < kept.len() ==> 0 <= #[trigger] kept[k] < before.len()
    &&& forall|k: int, l: int| 0 <= k < l < kept.len() ==> kept[k] < kept[l]
    &&& forall|k: int| 0 <= k < kept.len() ==> #[trigger] after[k] == before[kept[k]]
    &&& forall|k: int| 0 <= k < kept.len() ==> (#[trigger] after[k]).success_rate >= least
    &&& forall|j: int|
        0 <= j < before.len() && !kept.contains(j) ==> (#[trigger] before[j]).success_rate <= least
}

/// Whether `after` are the profiles once the transfers `flows` were
/// analyzed as of `now`, with `before` tracked until then: all the
/// transfers are looked over, and where more developers are then tracked
/// than may be, the least successful go until as many are left as may be.
pub open spec fn is_analysis(
    after: Seq<ProfileModel>,
    before: Seq<ProfileModel>,
    config: TrackingConfig,
    flows: Seq<MoneyFlow>,
    now: i64,
) -> bool {
    let merged = looked_over(config, flows, now, before, flows.len() as int);
    if merged.len() > config.max_tracking_wallets {
        after.len() == config.max_tracking_wallets && exists|kept: Seq<int>, least: u64| #[trigger]
            is_model_pruning(after, merged, kept, least)
    } else {
        after == merged
    }
}

/// The tracker with the developers it tracks and the transfers it has seen.
#[derive(Debug)]
pub struct DeveloperTracker {
    pub tracked_developers: Vec<DeveloperProfile>,
    pub money_flows: Vec<MoneyFlow>,
    pub tracking_config: TrackingConfig,
}

/// Whether `r` is what the transfer `flow` tells of among the developers:
/// the launch of the developer that received it, where that developer is
/// followed and the transfer tells of a launch, and nothing otherwise.
pub open spec fn is_analysis_of(
    r: Option<TokenLaunch>,
    developers: Seq<DeveloperProfile>,
    flow: MoneyFlow,
    now: i64,
    serial: u16,
) -> bool {
    match tracked_at(developers, flow.to_wallet@) {
        Some(i) => if tells_of_launch(flow) {
            r matches Some(launch) && is_launch_of(launch, flow, developers[i], now, serial)
        } else {
            r is None
        },
        None => r is None,
    }
}

/// Whether `launches` and `after` come of one scan at `now` over the
/// transfers `before`: the sample transfers of the scan are added, the
/// transfers that are still recent stay, and the launches are those that
/// the samples tell of.
pub open spec fn is_scan(
    launches: Seq<TokenLaunch>,
    after: Seq<MoneyFlow>,
    before: Seq<MoneyFlow>,
    developers: Seq<DeveloperProfile>,
    now: i64,
    serial: u16,
) -> bool {
    exists|samples: Seq<MoneyFlow>|
        {
            &&& are_samples(samples, now)
            &&& #[trigger] is_recent_part(after, before + samples, now)
            &&& are_launches(launches, samples, developers, now, serial)
        }
}

/// A profile after an update with two random words as of `now`: one time
/// in ten its success rate moves and it counts as active at `now`.
pub open spec fn refreshed(
    profile: DeveloperProfile,
    chance: u64,
    amount: u64,
    now: i64,
) -> DeveloperProfile {
    DeveloperProfile {
        success_rate: updated_success(profile.success_rate, chance, amount),
        last_activity: if chance % SCALE < 100_000 {
            now
        } else {
            profile.last_activity
        },
        ..profile
    }
}

/// Whether `after` holds the profiles of `before`, each updated as of `now`
/// with its own pair of the random words `rolls`.
pub open spec fn is_refresh(
    after: Seq<DeveloperProfile>,
    before: Seq<DeveloperProfile>,
    now: i64,
    rolls: Seq<(u64, u64)>,
) -> bool {
    &&& after.len() == before.len()
    &&& rolls.len() == before.len()
    &&& forall|k: int|
        0 <= k < before.len() ==> #[trigger] after[k] == refreshed(
            before[k],
            rolls[k].0,
            rolls[k].1,
            now,
        )
}

impl DeveloperTracker {
    /// A tracker with the configuration `config` that tracks no one and has
    /// seen nothing.
    pub fn new(config: TrackingConfig) -> (r: Self)
        ensures
            r.tracking_config == config,
            r.tracked_developers@.len() == 0,
            r.money_flows@.len() == 0,
    {
        DeveloperTracker {
            tracked_developers: Vec::new(),
            money_flows: Vec::new(),
            tracking_config: config,
        }
    }

    /// The profile of the wallet `wallet` with the transfers `activities`,
    /// as of `now`.
    pub fn create_developer_profile_at(
        &self,
        wallet: &str,
        activities: &Vec<MoneyFlow>,
        now: i64,
    ) -> (r: DeveloperProfile)
        ensures
            is_profile_of(r, wallet@, activities@, now),
    {
        let mut fresh: usize = 0;
        let mut i: usize = 0;
        while i < activities.len()
            invariant
                i <= activities@.len(),
                fresh <= i,
                fresh as int == fresh_count(activities@, i as int),
            decreases activities.len() - i,
        {
            match activities[i].transaction_type {
                TransactionType::FundingFromExchange => {
                    fresh += 1;
                },
                _ => {},
            }
            i += 1;
        }
        let total = activities.len();
        let wallet_type = if (fresh as u128) * 10 > (total as u128) * 6 {
            WalletType::Fresh
        } else if (fresh as u128) * 10 < (total as u128) * 2 {
            WalletType::Aged
        } else {
            WalletType::Mixed
        };
        let success_rate: u64 = match wallet_type {
            WalletType::Mixed => 350_000,
            WalletType::Fresh => 250_000,
            WalletType::Aged => 300_000,
        };
        DeveloperProfile {
            wallet_address: String::from_str(wallet),
            wallet_type,
            success_rate,
            average_profit_percentage: 25_000_000,
            tokens_created_24h: total as u32,
            last_activity: now,
            risk_score: 700_000,
            tracking_confidence: 800_000,
        }
    }

    /// The profile of the wallet `wallet` with the transfers `activities`,
    /// as of the time of the system clock.
    pub fn create_developer_profile(&self, wallet: &str, activities: &Vec<MoneyFlow>) -> (r:
        DeveloperProfile)
        ensures
            r.wallet_address@ == wallet@,
            r.wallet_type == funding_of(
                fresh_count(activities@, activities@.len() as int),
                activities@.len() as int,
            ),
            r.success_rate == assumed_success(r.wallet_type),
            r.success_rate > 0,
            r.tokens_created_24h == activities@.len() as u32,
            exists|now: i64| #[trigger] is_profile_of(r, wallet@, activities@, now),
    {
        let now = now_millis();
        let r = self.create_developer_profile_at(wallet, activities, now);
        assert(is_profile_of(r, wallet@, activities@, now));
        r
    }

    /// Whether `profile` is worth tracking.
    pub fn meets_tracking_criteria(&self, profile: &DeveloperProfile) -> (r: bool)
        ensures
            r == trackable(self.tracking_config, *profile),
    {
        profile.success_rate >= self.tracking_config.min_success_rate
            && profile.tokens_created_24h >= self.tracking_config.min_tokens_per_day && matches!(
            profile.wallet_type,
            WalletType::Mixed
        )
    }

    /// The position of the profile of the wallet `wallet`.
    pub fn find_developer(&self, wallet: &str) -> (r: Option<usize>)
        ensures
            match r {
                Some(i) => tracked_at(self.tracked_developers@, wallet@) == Some(i as int) && i
                    < self.tracked_developers@.len()
                    && self.tracked_developers@[i as int].wallet_address@ == wallet@,
                None => tracked_at(self.tracked_developers@, wallet@) is None,
            },
    {
        let ghost ids = Seq::new(
            self.tracked_developers@.len(),
            |i: int| self.tracked_developers@[i].wallet_address@,
        );
        let mut i: usize = 0;
        while i < self.tracked_developers.len()
            invariant
                i <= self.tracked_developers@.len(),
                ids == Seq::new(
                    self.tracked_developers@.len(),
                    |i: int| self.tracked_developers@[i].wallet_address@,
                ),
                forall|j: int| 0 <= j < i ==> ids[j] != wallet@,
            decreases self.tracked_developers.len() - i,
        {
            if same_text(self.tracked_developers[i].wallet_address.as_str(), wallet) {
                proof {
                    crate::lists::lemma_index_in_is(ids, wallet@, i as int);
                }
                return Some(i);
            }
            i += 1;
        }
        proof {
            crate::lists::lemma_index_in(ids, wallet@);
        }
        None
    }

    /// The launch that the transfer `flow` tells of, at `now` and with the
    /// serial number `serial`: one where the transfer goes to a tracked
    /// developer and is a funding from an exchange of more than five.
    pub fn analyze_flow_for_launch_at(&self, flow: &MoneyFlow, now: i64, serial: u16) -> (r: Option<
        TokenLaunch,
    >)
        ensures
            is_analysis_of(r, self.tracked_developers@, *flow, now, serial),
    {
        let at = match self.find_developer(flow.to_wallet.as_str()) {
            Some(i) => i,
            None => {
                return None;
            },
        };
        match flow.transaction_type {
            TransactionType::FundingFromExchange => {},
            _ => {
                return None;
            },
        }
        if flow.amount_sol <= 5_000_000 {
            return None;
        }
        let mut token_address = String::from_str("new_token_");
        push_signed_number(&mut token_address, seconds(now));
        let mut token_symbol = String::from_str("DEV");
        push_number(&mut token_symbol, serial as u64);
        proof {
            crate::fixed::lemma_scaled_product_at_most(flow.amount_sol as int, 800_000);
        }
        Some(
            TokenLaunch {
                token_address,
                token_symbol,
                developer_wallet: flow.to_wallet.clone(),
                launch_timestamp: now,
                initial_market_cap: 7_500_000_000,
                liquidity_amount: crate::fixed::scaled_mul(flow.amount_sol, 800_000),
                predicted_success_probability: self.tracked_developers[at].success_rate,
                entry_window_seconds: 30,
            },
        )
    }

    /// The launch that the transfer `flow` tells of, at the time of the
    /// system clock and with a random serial number.
    pub fn analyze_flow_for_launch(&self, flow: &MoneyFlow) -> (r: Option<TokenLaunch>)
        ensures
            r is Some <==> tracked_at(self.tracked_developers@, flow.to_wallet@) is Some
                && tells_of_launch(*flow),
            r matches Some(launch) ==> launch.developer_wallet@ == flow.to_wallet@
                && launch.initial_market_cap == 7_500_000_000 && launch.entry_window_seconds == 30,
            exists|now: i64, serial: u16| #[trigger]
                is_analysis_of(r, self.tracked_developers@, *flow, now, serial),
    {
        let serial: u16 = (random_word() % 65_536) as u16;
        let now = now_millis();
        let r = self.analyze_flow_for_launch_at(flow, now, serial);
        assert(is_analysis_of(r, self.tracked_developers@, *flow, now, serial));
        r
    }

    /// The three sample transfers that stand in for a scan of the chain at
    /// `now`.
    pub fn detect_money_flows(&self, now: i64) -> (r: Vec<MoneyFlow>)
        ensures
            r@.len() == 3,
            forall|i: int| 0 <= i < 3 ==> is_sample_flow(#[trigger] r@[i], i, now),
    {
        let mut flows: Vec<MoneyFlow> = Vec::new();
        let mut i: u64 = 0;
        while i < 3
            invariant
                i <= 3,
                flows@.len() == i,
                forall|k: int| 0 <= k < i ==> is_sample_flow(#[trigger] flows@[k], k, now),
            decreases 3 - i,
        {
            let mut from_wallet = String::from_str("exchange_wallet_");
            push_number(&mut from_wallet, i);
            let mut to_wallet = String::from_str("dev_wallet_");
            push_number(&mut to_wallet, i);
            let wide: i128 = now as i128 - (i as i128) * 600_000;
            let timestamp: i64 = if wide < i64::MIN as i128 {
                i64::MIN
            } else {
                wide as i64
            };
            let ghost earlier = flows@;
            flows.push(
                MoneyFlow {
                    from_wallet,
                    to_wallet,
                    amount_sol: 10_000_000 + i * 5_000_000,
                    timestamp,
                    transaction_type: TransactionType::FundingFromExchange,
                },
            );
            proof {
                assert forall|k: int| 0 <= k < i + 1 implies is_sample_flow(
                    #[trigger] flows@[k],
                    k,
                    now,
                ) by {
                    if k < i {
                        assert(flows@[k] == earlier[k]);
                    }
                }
            }
            i += 1;
        }
        flows
    }

    /// Forgets the transfers that are a day old or older at `now`; the
    /// others stay, in their order.
    pub fn forget_old_flows(&mut self, now: i64)
        ensures
            final(self).tracked_developers == old(self).tracked_developers,
            final(self).tracking_config == old(self).tracking_config,
            is_recent_part(final(self).money_flows@, old(self).money_flows@, now),
    {
        let mut all: Vec<MoneyFlow> = Vec::new();
        std::mem::swap(&mut all, &mut self.money_flows);
        let ghost before = all@;
        let ghost recent = Seq::new(before.len(), |i: int| before[i].timestamp > now - 86_400_000);
        for flow in it: all
            invariant
                it.seq() == before,
                recent == Seq::new(before.len(), |i: int| before[i].timestamp > now - 86_400_000),
                self.tracked_developers == old(self).tracked_developers,
                self.tracking_config == old(self).tracking_config,
                self.money_flows@.len() == picked(
                    recent,
                    it.index() as int,
                ).len(),
                forall|k: int|
                    0 <= k < self.money_flows@.len() ==> 0
                        <= #[trigger] picked(
                        recent,
                        it.index() as int,
                    )[k] < it.index(),
                forall|k: int|
                    0 <= k < self.money_flows@.len() ==> #[trigger] self.money_flows@[k]
                        == before[picked(
                        recent,
                        it.index() as int,
                    )[k]],
        {
            let ghost earlier = self.money_flows@;
            let ghost chosen = picked(recent, it.index() as int);
            let ghost at = it.index() as int;
            assert(flow == before[at]);
            assert(recent[at] == (flow.timestamp > now - 86_400_000));
            if (flow.timestamp as i128) > (now as i128) - 86_400_000 {
                self.money_flows.push(flow);
            }
            proof {
                let after = picked(recent, at + 1);
                assert forall|k: int| 0 <= k < self.money_flows@.len() implies 0 <= #[trigger] after[k]
                    < at + 1 && self.money_flows@[k] == before[after[k]] by {
                    if k < earlier.len() {
                        assert(self.money_flows@[k] == earlier[k]);
                        assert(after[k] == chosen[k]);
                    }
                }
            }
        }
    }

    /// One scan of the chain at `now`: the three sample transfers are
    /// taken among the transfers that were seen, the launches that they tell
    /// of are given, each with the serial number `serial`, and the transfers
    /// that are a day old or older are forgotten.
    pub fn scan_money_flows_at(&mut self, now: i64, serial: u16) -> (r: Vec<TokenLaunch>)
        ensures
            final(self).tracked_developers == old(self).tracked_developers,
            final(self).tracking_config == old(self).tracking_config,
            is_scan(
                r@,
                final(self).money_flows@,
                old(self).money_flows@,
                old(self).tracked_developers@,
                now,
                serial,
            ),
    {
        let new_flows = self.detect_money_flows(now);
        let ghost samples = new_flows@;
        let ghost developers = self.tracked_developers@;
        let ghost telling = Seq::new(
            samples.len(),
            |i: int| tracked_at(developers, samples[i].to_wallet@) is Some && tells_of_launch(samples[i]),
        );
        let mut launches: Vec<TokenLaunch> = Vec::new();
        let mut i: usize = 0;
        while i < new_flows.len()
            invariant
                i <= new_flows@.len(),
                samples == new_flows@,
                developers == self.tracked_developers@,
                self.tracked_developers == old(self).tracked_developers,
                self.tracking_config == old(self).tracking_config,
                telling == Seq::new(
                    samples.len(),
                    |i: int|
                        tracked_at(developers, samples[i].to_wallet@) is Some && tells_of_launch(
                            samples[i],
                        ),
                ),
                self.money_flows@ == old(self).money_flows@ + samples.take(i as int),
                launches@.len() == picked(telling, i as int).len(),
                forall|k: int|
                    0 <= k < launches@.len() ==> 0 <= #[trigger] picked(telling, i as int)[k] < i,
                forall|k: int|
                    0 <= k < launches@.len() ==> is_launch_of(
                        #[trigger] launches@[k],
                        samples[picked(telling, i as int)[k]],
                        developers[tracked_at(
                            developers,
                            samples[picked(telling, i as int)[k]].to_wallet@,
                        )->0],
                        now,
                        serial,
                    ),
            decreases new_flows.len() - i,
        {
            let ghost earlier = launches@;
            let ghost chosen = picked(telling, i as int);
            let ghost flows_before = self.money_flows@;
            self.money_flows.push(new_flows[i].clone());
            match self.analyze_flow_for_launch_at(&new_flows[i], now, serial) {
                Some(launch) => {
                    launches.push(launch);
                },
                None => {},
            }
            i += 1;
            proof {
                assert(samples.take(i as int) =~= samples.take(i - 1).push(samples[i - 1]));
                assert(self.money_flows@ =~= old(self).money_flows@ + samples.take(i as int));
                let after = picked(telling, i as int);
                assert forall|k: int| 0 <= k < launches@.len() implies 0 <= #[trigger] after[k] < i
                    && is_launch_of(
                    launches@[k],
                    samples[after[k]],
                    developers[tracked_at(developers, samples[after[k]].to_wallet@)->0],
                    now,
                    serial,
                ) by {
                    if k < earlier.len() {
                        assert(launches@[k] == earlier[k]);
                        assert(after[k] == chosen[k]);
                    }
                }
            }
        }
        proof {
            assert(samples.take(3) =~= samples);
        }
        self.forget_old_flows(now);
        launches
    }

    /// One scan of the chain at the time of the system clock, with a random
    /// serial number for the launches. Each launch is one of a tracked
    /// developer.
    pub fn scan_money_flows(&mut self) -> (r: Vec<TokenLaunch>)
        ensures
            final(self).tracked_developers == old(self).tracked_developers,
            final(self).tracking_config == old(self).tracking_config,
            r@.len() <= 3,
            exists|now: i64, serial: u16| #[trigger]
                is_scan(
                    r@,
                    final(self).money_flows@,
                    old(self).money_flows@,
                    old(self).tracked_developers@,
                    now,
                    serial,
                ),
    {
        let serial: u16 = (random_word() % 65_536) as u16;
        let now = now_millis();
        let r = self.scan_money_flows_at(now, serial);
        proof {
            assert(is_scan(
                r@,
                self.money_flows@,
                old(self).money_flows@,
                old(self).tracked_developers@,
                now,
                serial,
            ));
            let samples = choose|samples: Seq<MoneyFlow>|
                {
                    &&& are_samples(samples, now)
                    &&& #[trigger] is_recent_part(
                        self.money_flows@,
                        old(self).money_flows@ + samples,
                        now,
                    )
                    &&& are_launches(r@, samples, old(self).tracked_developers@, now, serial)
                };
            let telling = Seq::new(
                samples.len(),
                |i: int|
                    tracked_at(old(self).tracked_developers@, samples[i].to_wallet@) is Some
                        && tells_of_launch(samples[i]),
            );
            crate::lists::lemma_picked_length(telling, 3);
        }
        r
    }

    /// Stops tracking the least successful developers until no more are
    /// tracked than may be: those that stay keep their order, and none of
    /// them is less successful than one that went.
    pub fn prune_tracked_developers(&mut self)
        ensures
            final(self).money_flows == old(self).money_flows,
            final(self).tracking_config == old(self).tracking_config,
            final(self).tracked_developers@.len() == if old(self).tracked_developers@.len()
                > old(self).tracking_config.max_tracking_wallets {
                old(self).tracking_config.max_tracking_wallets as nat
            } else {
                old(self).tracked_developers@.len()
            },
            exists|kept: Seq<int>, least: u64| #[trigger]
                is_pruning(
                    final(self).tracked_developers@,
                    old(self).tracked_developers@,
                    kept,
                    least,
                ),
    {
        let ghost before = self.tracked_developers@;
        let ghost mut kept: Seq<int> = Seq::new(before.len(), |i: int| i);
        let ghost mut least: u64 = 0;
        proof {
            assert forall|j: int| 0 <= j < before.len() implies kept.contains(j) by {
                assert(kept[j] == j);
            }
        }
        while self.tracked_developers.len() > self.tracking_config.max_tracking_wallets
            invariant
                self.money_flows == old(self).money_flows,
                self.tracking_config == old(self).tracking_config,
                before == old(self).tracked_developers@,
                kept.len() == self.tracked_developers@.len(),
                kept.len() <= before.len(),
                kept.len() >= if before.len() > self.tracking_config.max_tracking_wallets {
                    self.tracking_config.max_tracking_wallets as nat
                } else {
                    before.len()
                },
                forall|k: int| 0 <= k < kept.len() ==> 0 <= #[trigger] kept[k] < before.len(),
                forall|k: int, l: int| 0 <= k < l < kept.len() ==> kept[k] < kept[l],
                forall|k: int|
                    0 <= k < kept.len() ==> #[trigger] self.tracked_developers@[k]
                        == before[kept[k]],
                forall|k: int|
                    0 <= k < kept.len() ==> (#[trigger] self.tracked_developers@[k]).success_rate
                        >= least,
                forall|j: int|
                    0 <= j < before.len() && !kept.contains(j) ==> (
                    #[trigger] before[j]).success_rate <= least,
            decreases self.tracked_developers.len(),
        {
            // The last of the least successful developers goes.
            let mut worst: usize = 0;
            let mut i: usize = 1;
            while i < self.tracked_developers.len()
                invariant
                    1 <= i <= self.tracked_developers@.len(),
                    worst < i,
                    forall|k: int|
                        0 <= k < i ==> self.tracked_developers@[worst as int].success_rate <= (
                        #[trigger] self.tracked_developers@[k]).success_rate,
                decreases self.tracked_developers.len() - i,
            {
                if self.tracked_developers[i].success_rate
                    <= self.tracked_developers[worst].success_rate {
                    worst = i;
                }
                i += 1;
            }
            let ghost current = self.tracked_developers@;
            let ghost old_kept = kept;
            let gone = self.tracked_developers.remove(worst);
            proof {
                least = gone.success_rate;
                kept = old_kept.remove(worst as int);
                assert forall|k: int| 0 <= k < kept.len() implies #[trigger] self.tracked_developers@[k]
                    == before[kept[k]] && 0 <= kept[k] < before.len()
                    && self.tracked_developers@[k].success_rate >= least by {
                    if k < worst {
                        assert(kept[k] == old_kept[k]);
                        assert(self.tracked_developers@[k] == current[k]);
                    } else {
                        assert(kept[k] == old_kept[k + 1]);
                        assert(self.tracked_developers@[k] == current[k + 1]);
                    }
                }
                assert forall|k: int, l: int| 0 <= k < l < kept.len() implies kept[k] < kept[l] by {
                    let a = if k < worst {
                        k
                    } else {
                        k + 1
                    };
                    let b = if l < worst {
                        l
                    } else {
                        l + 1
                    };
                    assert(kept[k] == old_kept[a]);
                    assert(kept[l] == old_kept[b]);
                }
                assert forall|j: int| 0 <= j < before.len() && !kept.contains(j) implies (
                #[trigger] before[j]).success_rate <= least by {
                    if old_kept.contains(j) {
                        let at = choose|at: int| 0 <= at < old_kept.len() && old_kept[at] == j;
                        if at < worst {
                            assert(kept[at] == old_kept[at]);
                            assert(kept.contains(j));
                        } else if at > worst {
                            assert(kept[at - 1] == old_kept[at]);
                            assert(kept.contains(j));
                        } else {
                            assert(before[j] == current[worst as int]);
                        }
                    }
                }
            }
        }
        assert(is_pruning(self.tracked_developers@, before, kept, least));
    }

    /// Looks over the transfers that were seen, as of `now`: a wallet that
    /// received at least three of them and whose profile is worth tracking is
    /// tracked, or tracked anew; then the least successful developers go
    /// until no more are tracked than may be.
    pub fn analyze_developer_patterns_at(&mut self, now: i64)
        ensures
            final(self).money_flows == old(self).money_flows,
            final(self).tracking_config == old(self).tracking_config,
            is_analysis(
                models(final(self).tracked_developers@),
                models(old(self).tracked_developers@),
                old(self).tracking_config,
                old(self).money_flows@,
                now,
            ),
    {
        let ghost flows = self.money_flows@;
        let ghost before = models(self.tracked_developers@);
        let mut i: usize = 0;
        while i < self.money_flows.len()
            invariant
                i <= self.money_flows@.len(),
                self.money_flows == old(self).money_flows,
                self.tracking_config == old(self).tracking_config,
                flows == self.money_flows@,
                before == models(old(self).tracked_developers@),
                models(self.tracked_developers@) == looked_over(
                    self.tracking_config,
                    flows,
                    now,
                    before,
                    i as int,
                ),
            decreases self.money_flows.len() - i,
        {
            let ghost wallet = flows[i as int].to_wallet@;
            let mut activities: Vec<MoneyFlow> = Vec::new();
            let mut k: usize = 0;
            while k < self.money_flows.len()
                invariant
                    k <= self.money_flows@.len(),
                    i < self.money_flows@.len(),
                    flows == self.money_flows@,
                    wallet == flows[i as int].to_wallet@,
                    activities@ == received(flows, wallet, k as int),
                decreases self.money_flows.len() - k,
            {
                if same_text(
                    self.money_flows[k].to_wallet.as_str(),
                    self.money_flows[i].to_wallet.as_str(),
                ) {
                    activities.push(self.money_flows[k].clone());
                }
                k += 1;
            }
            if activities.len() >= 3 {
                let profile = self.create_developer_profile_at(
                    self.money_flows[i].to_wallet.as_str(),
                    &activities,
                    now,
                );
                assert(profile@ == profile_model(wallet, activities@, now));
                if self.meets_tracking_criteria(&profile) {
                    let ghost earlier = self.tracked_developers@;
                    proof {
                        assert(Seq::new(earlier.len(), |j: int| earlier[j].wallet_address@)
                            =~= Seq::new(
                            models(earlier).len(),
                            |j: int| models(earlier)[j].wallet_address,
                        ));
                    }
                    match self.find_developer(profile.wallet_address.as_str()) {
                        Some(at) => {
                            self.tracked_developers.set(at, profile);
                            assert(models(self.tracked_developers@) =~= models(earlier).update(
                                at as int,
                                profile@,
                            ));
                        },
                        None => {
                            self.tracked_developers.push(profile);
                            assert(models(self.tracked_developers@) =~= models(earlier).push(
                                profile@,
                            ));
                        },
                    }
                }
            }
            i += 1;
        }
        let ghost merged = self.tracked_developers@;
        if self.tracked_developers.len() > self.tracking_config.max_tracking_wallets {
            self.prune_tracked_developers();
            proof {
                let (kept, least) = choose|kept: Seq<int>, least: u64| #[trigger]
                    is_pruning(self.tracked_developers@, merged, kept, least);
                assert(is_model_pruning(
                    models(self.tracked_developers@),
                    models(merged),
                    kept,
                    least,
                ));
            }
        }
    }

    /// Looks over the transfers that were seen, as of the time of the
    /// system clock.
    pub fn analyze_developer_patterns(&mut self)
        ensures
            final(self).money_flows == old(self).money_flows,
            final(self).tracking_config == old(self).tracking_config,
            exists|now: i64| #[trigger]
                is_analysis(
                    models(final(self).tracked_developers@),
                    models(old(self).tracked_developers@),
                    old(self).tracking_config,
                    old(self).money_flows@,
                    now,
                ),
    {
        let now = now_millis();
        self.analyze_developer_patterns_at(now);
        assert(is_analysis(
            models(self.tracked_developers@),
            models(old(self).tracked_developers@),
            old(self).tracking_config,
            old(self).money_flows@,
            now,
        ));
    }

    /// Updates the profile at position `at` with two random words, as of
    /// `now`: one time in ten its success rate moves, and it counts as
    /// active at `now`.
    pub fn update_profile_with(&mut self, at: usize, chance: u64, amount: u64, now: i64)
        requires
            at < old(self).tracked_developers@.len(),
        ensures
            final(self).money_flows == old(self).money_flows,
            final(self).tracking_config == old(self).tracking_config,
            final(self).tracked_developers@ == old(self).tracked_developers@.update(
                at as int,
                refreshed(old(self).tracked_developers@[at as int], chance, amount, now),
            ),
    {
        if chance % SCALE < 100_000 {
            let rate = self.tracked_developers[at].success_rate;
            let moved: u128 = rate as u128 + ((amount % SCALE) / 10) as u128;
            let next: u64 = if moved <= 50_000 {
                0
            } else if moved - 50_000 > SCALE as u128 {
                SCALE
            } else {
                (moved - 50_000) as u64
            };
            self.tracked_developers[at].success_rate = next;
            self.tracked_developers[at].last_activity = now;
        }
        assert(self.tracked_developers@ =~= old(self).tracked_developers@.update(
            at as int,
            DeveloperProfile {
                success_rate: updated_success(
                    old(self).tracked_developers@[at as int].success_rate,
                    chance,
                    amount,
                ),
                last_activity: if chance % SCALE < 100_000 {
                    now
                } else {
                    old(self).tracked_developers@[at as int].last_activity
                },
                ..old(self).tracked_developers@[at as int]
            },
        ));
    }

    /// Updates every profile with two random words of its own, as of the
    /// time of the system clock. No developer comes or goes.
    pub fn update_developer_profiles(&mut self)
        ensures
            final(self).money_flows == old(self).money_flows,
            final(self).tracking_config == old(self).tracking_config,
            exists|now: i64, rolls: Seq<(u64, u64)>| #[trigger]
                is_refresh(
                    final(self).tracked_developers@,
                    old(self).tracked_developers@,
                    now,
                    rolls,
                ),
    {
        let now = now_millis();
        let ghost mut rolls: Seq<(u64, u64)> = Seq::empty();
        let mut i: usize = 0;
        while i < self.tracked_developers.len()
            invariant
                i <= self.tracked_developers@.len(),
                rolls.len() == i,
                self.money_flows == old(self).money_flows,
                self.tracking_config == old(self).tracking_config,
                self.tracked_developers@.len() == old(self).tracked_developers@.len(),
                forall|k: int|
                    0 <= k < i ==> #[trigger] self.tracked_developers@[k] == refreshed(
                        old(self).tracked_developers@[k],
                        rolls[k].0,
                        rolls[k].1,
                        now,
                    ),
                forall|k: int|
                    i <= k < self.tracked_developers@.len() ==> #[trigger] self.tracked_developers@[k]
                        == old(self).tracked_developers@[k],
            decreases self.tracked_developers.len() - i,
        {
            let chance = random_word();
            let amount = random_word();
            self.update_profile_with(i, chance, amount, now);
            proof {
                rolls = rolls.push((chance, amount));
            }
            i += 1;
        }
        assert(is_refresh(self.tracked_developers@, old(self).tracked_developers@, now, rolls));
    }
}

impl TokenLaunch {
    /// The signal to buy the launched token, under the identifier
    /// `signal_id` and stamped `now`: a quantity of 25 at a millionth of the
    /// market capitalization, with the launch's probability of success as the
    /// confidence.
    pub fn to_trading_signal_at(&self, signal_id: String, now: i64) -> (r: TradingSignal)
        ensures
            r.signal_id == signal_id,
            r.symbol@ == self.token_symbol@,
            r.action == TradeAction::Buy,
            r.quantity == 25_000_000,
            r.target_price == self.initial_market_cap / 1_000_000,
            r.confidence == self.predicted_success_probability,
            r.timestamp == now,
            r.strategy_type == StrategyType::DeveloperTracking,
    {
        TradingSignal {
            signal_id,
            symbol: self.token_symbol.clone(),
            action: TradeAction::Buy,
            quantity: 25_000_000,
            target_price: self.initial_market_cap / 1_000_000,
            confidence: self.predicted_success_probability,
            timestamp: now,
            strategy_type: StrategyType::DeveloperTracking,
        }
    }

    /// The signal to buy the launched token, under a fresh identifier and
    /// stamped with the time of the system clock.
    pub fn to_trading_signal(&self) -> (r: TradingSignal)
        ensures
            r.symbol@ == self.token_symbol@,
            r.action == TradeAction::Buy,
            r.quantity == 25_000_000,
            r.target_price == self.initial_market_cap / 1_000_000,
            r.confidence == self.predicted_success_probability,
            r.strategy_type == StrategyType::DeveloperTracking,
            r.signal_id@.len() == 36,
    {
        self.to_trading_signal_at(new_uuid(), now_millis())
    }
}

} // verus!
