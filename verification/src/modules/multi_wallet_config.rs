//! The configuration of the wallet fleet: the list of managed wallets as
//! one line of text, the risk limits and allocations that follow from a
//! wallet's type and risk profile, and the settings that hold for all
//! wallets.

use vstd::prelude::*;
use vstd::string::StringExecFns;
use crate::fixed::{lemma_scaled_product_monotonic, scaled_mul, scaled_product, SCALE};
use crate::lists::{distinct, picked};
use crate::modules::strategy::StrategyType;
use crate::modules::wallet_manager::{
    copy_allocations, key_material, keypair_address, lemma_upserted_distinct,
    serving_flags, serving_ids, standard_limits, upserted, wallet_ids, KeyError,
    StrategyAllocation, WalletConfig, WalletConfigBuilder, WalletRiskLimits, WalletStatus,
    WalletType,
};
use crate::text::{
    ascii_lower, ascii_upper, chars_of, decimal_value, digits_value, fields, is_decimal,
    is_keyword, is_unsigned, lowered, parse_bool, parse_decimal, parse_u64, push_char, split,
    to_lower, to_upper, views, without_plus,
};

verus! {

/// The settings that hold for all wallets. The emergency stop threshold is
/// a fraction in millionths.
#[derive(Debug, Clone, Copy, PartialEq, Eq, Structural)]
pub struct GlobalWalletSettings {
    pub max_concurrent_wallets: u32,
    pub wallet_selection_timeout_ms: u64,
    pub balance_check_interval_sec: u64,
    pub emergency_stop_threshold: u64,
    pub auto_rebalance_enabled: bool,
    pub risk_aggregation_enabled: bool,
}

/// The settings where nothing is set: 10 wallets at once, 5 s to select a
/// wallet, balances checked every 300 s, an emergency stop at a tenth of the
/// wallets, rebalancing and risk aggregation on.
pub open spec fn standard_settings() -> GlobalWalletSettings {
    GlobalWalletSettings {
        max_concurrent_wallets: 10,
        wallet_selection_timeout_ms: 5000,
        balance_check_interval_sec: 300,
        emergency_stop_threshold: 100_000,
        auto_rebalance_enabled: true,
        risk_aggregation_enabled: true,
    }
}

impl Default for GlobalWalletSettings {
    fn default() -> (r: Self)
        ensures
            r == standard_settings(),
    {
        GlobalWalletSettings {
            max_concurrent_wallets: 10,
            wallet_selection_timeout_ms: 5000,
            balance_check_interval_sec: 300,
            emergency_stop_threshold: 100_000,
            auto_rebalance_enabled: true,
            risk_aggregation_enabled: true,
        }
    }
}

/// What is wrong with the configuration of the wallet fleet.
#[derive(Debug, Clone, Copy, PartialEq, Eq, Structural)]
pub enum MultiWalletError {
    /// A wallet's definition does not have five fields.
    InvalidDefinition,
    /// A wallet's type is not one of the known types.
    InvalidWalletType,
    /// A wallet's allocation is no decimal number.
    InvalidAllocation,
    /// A wallet's allocation is not between zero and one.
    AllocationOutOfRange,
    /// No wallet is defined.
    NoWallets,
    /// A wallet's risk profile is not one of the known profiles.
    InvalidRiskProfile,
    /// A wallet's private key could not be read.
    InvalidKey(KeyError),
    /// There are not as many private keys as wallets.
    MissingKey,
    /// The number of wallets at once is no number of 32 bits.
    InvalidMaxConcurrentWallets,
    /// The time to select a wallet is no number of 64 bits.
    InvalidSelectionTimeout,
    /// The interval between balance checks is no number of 64 bits.
    InvalidBalanceCheckInterval,
    /// The emergency stop threshold is no decimal number.
    InvalidEmergencyStopThreshold,
    /// The switch for rebalancing is neither `true` nor `false`.
    InvalidAutoRebalance,
    /// The switch for risk aggregation is neither `true` nor `false`.
    InvalidRiskAggregation,
}

/// The texts that set the settings for all wallets, each as it was found or
/// none where it was not set.
#[derive(Debug)]
pub struct SettingsText {
    pub max_concurrent_wallets: Option<String>,
    pub wallet_selection_timeout_ms: Option<String>,
    pub balance_check_interval_sec: Option<String>,
    pub emergency_stop_threshold: Option<String>,
    pub auto_rebalance_enabled: Option<String>,
    pub risk_aggregation_enabled: Option<String>,
}

/// The number that an optional text sets, by `default` where there is no
/// text; none where the text is no unsigned integer of at most `limit`.
pub open spec fn count_setting(text: Option<String>, default: u64, limit: u64) -> Option<u64> {
    match text {
        None => Some(default),
        Some(t) => if is_unsigned(t@) && digits_value(without_plus(t@)) <= limit {
            Some(digits_value(without_plus(t@)) as u64)
        } else {
            None
        },
    }
}

/// The fraction that an optional text sets, by `default` where there is no
/// text; none where the text is no decimal number that fits in 64 bits.
pub open spec fn decimal_setting(text: Option<String>, default: u64) -> Option<u64> {
    match text {
        None => Some(default),
        Some(t) => if is_decimal(t@) && decimal_value(t@) <= u64::MAX {
            Some(decimal_value(t@) as u64)
        } else {
            None
        },
    }
}

/// The switch that an optional text sets, by `default` where there is no
/// text; none where the text is neither `true` nor `false`.
pub open spec fn switch_setting(text: Option<String>, default: bool) -> Option<bool> {
    match text {
        None => Some(default),
        Some(t) => if t@ == "true"@ {
            Some(true)
        } else if t@ == "false"@ {
            Some(false)
        } else {
            None
        },
    }
}

/// The number that an optional text sets.
pub fn read_count_setting(text: &Option<String>, default: u64, limit: u64) -> (r: Option<u64>)
    ensures
        r == count_setting(*text, default, limit),
{
    match text {
        None => Some(default),
        Some(t) => match parse_u64(t.as_str()) {
            Some(n) => if n <= limit {
                Some(n)
            } else {
                None
            },
            None => None,
        },
    }
}

/// The fraction that an optional text sets.
pub fn read_decimal_setting(text: &Option<String>, default: u64) -> (r: Option<u64>)
    ensures
        r == decimal_setting(*text, default),
{
    match text {
        None => Some(default),
        Some(t) => parse_decimal(t.as_str()),
    }
}

/// The switch that an optional text sets.
pub fn read_switch_setting(text: &Option<String>, default: bool) -> (r: Option<bool>)
    ensures
        r == switch_setting(*text, default),
{
    match text {
        None => Some(default),
        Some(t) => parse_bool(t.as_str()),
    }
}

/// The settings that the texts set, or the error of the first text, in the
/// order of the fields, that sets nothing.
pub open spec fn settings_of(text: SettingsText) -> Result<GlobalWalletSettings, MultiWalletError> {
    let wallets = count_setting(text.max_concurrent_wallets, 10, u32::MAX as u64);
    let timeout = count_setting(text.wallet_selection_timeout_ms, 5000, u64::MAX);
    let interval = count_setting(text.balance_check_interval_sec, 300, u64::MAX);
    let threshold = decimal_setting(text.emergency_stop_threshold, 100_000);
    let rebalance = switch_setting(text.auto_rebalance_enabled, true);
    let aggregation = switch_setting(text.risk_aggregation_enabled, true);
    if wallets is None {
        Err(MultiWalletError::InvalidMaxConcurrentWallets)
    } else if timeout is None {
        Err(MultiWalletError::InvalidSelectionTimeout)
    } else if interval is None {
        Err(MultiWalletError::InvalidBalanceCheckInterval)
    } else if threshold is None {
        Err(MultiWalletError::InvalidEmergencyStopThreshold)
    } else if rebalance is None {
        Err(MultiWalletError::InvalidAutoRebalance)
    } else if aggregation is None {
        Err(MultiWalletError::InvalidRiskAggregation)
    } else {
        Ok(
            GlobalWalletSettings {
                max_concurrent_wallets: wallets->0 as u32,
                wallet_selection_timeout_ms: timeout->0,
                balance_check_interval_sec: interval->0,
                emergency_stop_threshold: threshold->0,
                auto_rebalance_enabled: rebalance->0,
                risk_aggregation_enabled: aggregation->0,
            },
        )
    }
}

impl GlobalWalletSettings {
    /// The settings that the texts set; a setting without a text has its
    /// standard value.
    pub fn from_text(text: &SettingsText) -> (r: Result<Self, MultiWalletError>)
        ensures
            r == settings_of(*text),
    {
        let wallets = match read_count_setting(&text.max_concurrent_wallets, 10, u32::MAX as u64) {
            Some(n) => n as u32,
            None => {
                return Err(MultiWalletError::InvalidMaxConcurrentWallets);
            },
        };
        let timeout = match read_count_setting(&text.wallet_selection_timeout_ms, 5000, u64::MAX) {
            Some(n) => n,
            None => {
                return Err(MultiWalletError::InvalidSelectionTimeout);
            },
        };
        let interval = match read_count_setting(&text.balance_check_interval_sec, 300, u64::MAX) {
            Some(n) => n,
            None => {
                return Err(MultiWalletError::InvalidBalanceCheckInterval);
            },
        };
        let threshold = match read_decimal_setting(&text.emergency_stop_threshold, 100_000) {
            Some(n) => n,
            None => {
                return Err(MultiWalletError::InvalidEmergencyStopThreshold);
            },
        };
        let rebalance = match read_switch_setting(&text.auto_rebalance_enabled, true) {
            Some(b) => b,
            None => {
                return Err(MultiWalletError::InvalidAutoRebalance);
            },
        };
        let aggregation = match read_switch_setting(&text.risk_aggregation_enabled, true) {
            Some(b) => b,
            None => {
                return Err(MultiWalletError::InvalidRiskAggregation);
            },
        };
        Ok(
            GlobalWalletSettings {
                max_concurrent_wallets: wallets,
                wallet_selection_timeout_ms: timeout,
                balance_check_interval_sec: interval,
                emergency_stop_threshold: threshold,
                auto_rebalance_enabled: rebalance,
                risk_aggregation_enabled: aggregation,
            },
        )
    }
}

/// A managed wallet as its definition describes it. The allocation is a
/// fraction in millionths.
#[derive(Debug)]
pub struct EnvWalletConfig {
    pub wallet_id: String,
    pub name: String,
    pub private_key_path: String,
    pub wallet_type: WalletType,
    pub risk_profile: String,
    pub max_allocation: u64,
}

/// What a definition of a managed wallet says, as texts.
pub struct EnvWalletModel {
    pub wallet_id: Seq<char>,
    pub name: Seq<char>,
    pub private_key_path: Seq<char>,
    pub wallet_type: WalletType,
    pub risk_profile: Seq<char>,
    pub max_allocation: u64,
}

impl View for EnvWalletConfig {
    type V = EnvWalletModel;

    open spec fn view(&self) -> EnvWalletModel {
        EnvWalletModel {
            wallet_id: self.wallet_id@,
            name: self.name@,
            private_key_path: self.private_key_path@,
            wallet_type: self.wallet_type,
            risk_profile: self.risk_profile@,
            max_allocation: self.max_allocation,
        }
    }
}

/// The type of wallet that a word names, whatever its case.
pub open spec fn wallet_type_named(word: Seq<char>) -> Option<WalletType> {
    let w = lowered(word);
    if w == "primary"@ {
        Some(WalletType::Primary)
    } else if w == "secondary"@ {
        Some(WalletType::Secondary)
    } else if w == "hft"@ {
        Some(WalletType::HFT)
    } else if w == "conservative"@ {
        Some(WalletType::Conservative)
    } else if w == "experimental"@ {
        Some(WalletType::Experimental)
    } else if w == "arbitrage"@ {
        Some(WalletType::Arbitrage)
    } else if w == "mev"@ || w == "mevprotection"@ {
        Some(WalletType::MEVProtection)
    } else if w == "emergency"@ {
        Some(WalletType::Emergency)
    } else {
        None
    }
}

/// The type of wallet that `word` names.
pub fn parse_wallet_type(word: &str) -> (r: Option<WalletType>)
    ensures
        r == wallet_type_named(word@),
{
    if is_keyword(word, "primary") {
        Some(WalletType::Primary)
    } else if is_keyword(word, "secondary") {
        Some(WalletType::Secondary)
    } else if is_keyword(word, "hft") {
        Some(WalletType::HFT)
    } else if is_keyword(word, "conservative") {
        Some(WalletType::Conservative)
    } else if is_keyword(word, "experimental") {
        Some(WalletType::Experimental)
    } else if is_keyword(word, "arbitrage") {
        Some(WalletType::Arbitrage)
    } else if is_keyword(word, "mev") || is_keyword(word, "mevprotection") {
        Some(WalletType::MEVProtection)
    } else if is_keyword(word, "emergency") {
        Some(WalletType::Emergency)
    } else {
        None
    }
}

/// `text` with every underscore made a space.
pub open spec fn spaced(text: Seq<char>) -> Seq<char> {
    Seq::new(
        text.len(),
        |i: int|
            if text[i] == '_' {
                ' '
            } else {
                text[i]
            },
    )
}

/// A word with its first letter made upper-case and the others lower-case,
/// as far as they are ASCII letters.
pub open spec fn capitalized(word: Seq<char>) -> Seq<char> {
    Seq::new(
        word.len(),
        |i: int|
            if i == 0 {
                ascii_upper(word[i])
            } else {
                ascii_lower(word[i])
            },
    )
}

/// The first `n` of `words`, each capitalized, the empty ones left out, with
/// one space between each two.
pub open spec fn titled(words: Seq<Seq<char>>, n: int) -> Seq<char>
    decreases n,
{
    if n <= 0 {
        Seq::empty()
    } else {
        let before = titled(words, n - 1);
        let word = words[n - 1];
        if word.len() == 0 {
            before
        } else if before.len() == 0 {
            capitalized(word)
        } else {
            before + seq![' '] + capitalized(word)
        }
    }
}

/// The display name for an identifier: its words, which underscores and
/// spaces part, each capitalized, with one space between each two.
pub open spec fn title_case(text: Seq<char>) -> Seq<char> {
    let words = fields(spaced(text), ' ');
    titled(words, words.len() as int)
}

/// The display name for the identifier `text`.
pub fn to_title_case(text: &str) -> (r: String)
    ensures
        r@ == title_case(text@),
{
    let raw = chars_of(text);
    let mut plain = String::new();
    let mut i: usize = 0;
    while i < raw.len()
        invariant
            raw@ == text@,
            i <= raw.len(),
            plain@ == spaced(text@).take(i as int),
        decreases raw.len() - i,
    {
        let c = if raw[i] == '_' {
            ' '
        } else {
            raw[i]
        };
        push_char(&mut plain, c);
        i += 1;
        assert(spaced(text@).take(i as int) =~= spaced(text@).take(i - 1).push(c));
    }
    assert(plain@ =~= spaced(text@));
    let words = split(plain.as_str(), ' ');
    let ghost all = fields(spaced(text@), ' ');
    let mut r = String::new();
    let mut k: usize = 0;
    while k < words.len()
        invariant
            k <= words.len(),
            views(words@) == all,
            r@ == titled(all, k as int),
        decreases words.len() - k,
    {
        let word = chars_of(words[k].as_str());
        assert(all[k as int] == word@);
        if word.len() > 0 {
            if r.as_str().unicode_len() > 0 {
                push_char(&mut r, ' ');
            }
            let ghost start = r@;
            let mut j: usize = 0;
            while j < word.len()
                invariant
                    j <= word.len(),
                    r@ == start + capitalized(word@).take(j as int),
                decreases word.len() - j,
            {
                let c = if j == 0 {
                    to_upper(word[j])
                } else {
                    to_lower(word[j])
                };
                push_char(&mut r, c);
                j += 1;
                assert(capitalized(word@).take(j as int) =~= capitalized(word@).take(j - 1).push(
                    c,
                ));
                assert(start + capitalized(word@).take(j as int) =~= (start + capitalized(
                    word@,
                ).take(j - 1)).push(c));
            }
            assert(capitalized(word@).take(word.len() as int) =~= capitalized(word@));
            assert(start =~= Seq::<char>::empty() ==> start + capitalized(word@) =~= capitalized(
                word@,
            ));
        }
        k += 1;
    }
    r
}

/// What the definition `definition` of a managed wallet says: its five
/// fields between colons are the identifier, the path of the private key,
/// the type, the risk profile and the allocation, a fraction of at most one.
pub open spec fn parsed_definition(definition: Seq<char>) -> Result<
    EnvWalletModel,
    MultiWalletError,
> {
    let parts = fields(definition, ':');
    if parts.len() != 5 {
        Err(MultiWalletError::InvalidDefinition)
    } else if wallet_type_named(parts[2]) is None {
        Err(MultiWalletError::InvalidWalletType)
    } else if !(is_decimal(parts[4]) && decimal_value(parts[4]) <= u64::MAX) {
        Err(MultiWalletError::InvalidAllocation)
    } else if decimal_value(parts[4]) > SCALE {
        Err(MultiWalletError::AllocationOutOfRange)
    } else {
        Ok(
            EnvWalletModel {
                wallet_id: parts[0],
                name: title_case(parts[0]),
                private_key_path: parts[1],
                wallet_type: wallet_type_named(parts[2])->0,
                risk_profile: parts[3],
                max_allocation: decimal_value(parts[4]) as u64,
            },
        )
    }
}

/// The number of definitions at the head of `definitions` that are all
/// without error.
pub open spec fn valid_definitions(definitions: Seq<Seq<char>>) -> int
    decreases definitions.len(),
{
    if definitions.len() == 0 {
        0
    } else if parsed_definition(definitions[0]) is Err {
        0
    } else {
        1 + valid_definitions(definitions.drop_first())
    }
}

/// The head of valid definitions has `n` of them when the first `n` are
/// without error and either there are no more or the next one has an error.
pub proof fn lemma_valid_definitions(definitions: Seq<Seq<char>>, n: int)
    requires
        0 <= n <= definitions.len(),
        forall|j: int| 0 <= j < n ==> parsed_definition(definitions[j]) is Ok,
        n < definitions.len() ==> parsed_definition(definitions[n]) is Err,
    ensures
        valid_definitions(definitions) == n,
    decreases n,
{
    if n > 0 {
        assert(parsed_definition(definitions[0]) is Ok);
        assert forall|j: int| 0 <= j < n - 1 implies parsed_definition(
            definitions.drop_first()[j],
        ) is Ok by {
            assert(definitions.drop_first()[j] == definitions[j + 1]);
        }
        if n < definitions.len() {
            assert(definitions.drop_first()[n - 1] == definitions[n]);
        }
        lemma_valid_definitions(definitions.drop_first(), n - 1);
    }
}

/// The managed wallet that `definition` describes.
pub fn parse_wallet_definition(definition: &str) -> (r: Result<EnvWalletConfig, MultiWalletError>)
    ensures
        match parsed_definition(definition@) {
            Ok(model) => r matches Ok(config) && config@ == model,
            Err(e) => r matches Err(f) && f == e,
        },
{
    let parts = split(definition, ':');
    let ghost texts = fields(definition@, ':');
    if parts.len() != 5 {
        return Err(MultiWalletError::InvalidDefinition);
    }
    assert(texts[0] == parts@[0]@ && texts[1] == parts@[1]@ && texts[2] == parts@[2]@ && texts[3]
        == parts@[3]@ && texts[4] == parts@[4]@);
    let wallet_type = match parse_wallet_type(parts[2].as_str()) {
        Some(t) => t,
        None => {
            return Err(MultiWalletError::InvalidWalletType);
        },
    };
    let max_allocation = match parse_decimal(parts[4].as_str()) {
        Some(a) => a,
        None => {
            return Err(MultiWalletError::InvalidAllocation);
        },
    };
    if max_allocation > SCALE {
        return Err(MultiWalletError::AllocationOutOfRange);
    }
    Ok(
        EnvWalletConfig {
            wallet_id: parts[0].clone(),
            name: to_title_case(parts[0].as_str()),
            private_key_path: parts[1].clone(),
            wallet_type,
            risk_profile: parts[3].clone(),
            max_allocation,
        },
    )
}

/// The risk limits that a risk profile names, whatever its case, before
/// they are scaled.
pub open spec fn profile_limits(profile: Seq<char>) -> Option<WalletRiskLimits> {
    let p = lowered(profile);
    if p == "low"@ || p == "conservative"@ {
        Some(
            WalletRiskLimits {
                max_daily_loss: 100_000_000,
                max_position_size: 1_000_000_000,
                max_concurrent_positions: 3,
                max_exposure_percentage: 20_000_000,
                stop_loss_threshold: 2_000_000,
                daily_trade_limit: 10,
            },
        )
    } else if p == "medium"@ || p == "moderate"@ {
        Some(
            WalletRiskLimits {
                max_daily_loss: 500_000_000,
                max_position_size: 5_000_000_000,
                max_concurrent_positions: 5,
                max_exposure_percentage: 50_000_000,
                stop_loss_threshold: 3_000_000,
                daily_trade_limit: 25,
            },
        )
    } else if p == "high"@ || p == "aggressive"@ {
        Some(
            WalletRiskLimits {
                max_daily_loss: 2_000_000_000,
                max_position_size: 20_000_000_000,
                max_concurrent_positions: 10,
                max_exposure_percentage: 80_000_000,
                stop_loss_threshold: 5_000_000,
                daily_trade_limit: 50,
            },
        )
    } else if p == "experimental"@ {
        Some(
            WalletRiskLimits {
                max_daily_loss: 50_000_000,
                max_position_size: 500_000_000,
                max_concurrent_positions: 2,
                max_exposure_percentage: 10_000_000,
                stop_loss_threshold: 1_000_000,
                daily_trade_limit: 5,
            },
        )
    } else {
        None
    }
}

/// The risk limits of a wallet with the risk profile `profile` and the
/// allocation `max_allocation`: those of the profile, with the daily loss
/// and the position size scaled by the allocation.
pub open spec fn scaled_limits(profile: Seq<char>, max_allocation: u64) -> Option<
    WalletRiskLimits,
> {
    match profile_limits(profile) {
        Some(base) => Some(
            WalletRiskLimits {
                max_daily_loss: scaled_product(
                    base.max_daily_loss as int,
                    max_allocation as int,
                ) as u64,
                max_position_size: scaled_product(
                    base.max_position_size as int,
                    max_allocation as int,
                ) as u64,
                ..base
            },
        ),
        None => None,
    }
}

/// The unscaled risk limits of the risk profile `profile`.
pub fn base_limits(profile: &str) -> (r: Option<WalletRiskLimits>)
    ensures
        r == profile_limits(profile@),
{
    if is_keyword(profile, "low") || is_keyword(profile, "conservative") {
        Some(
            WalletRiskLimits {
                max_daily_loss: 100_000_000,
                max_position_size: 1_000_000_000,
                max_concurrent_positions: 3,
                max_exposure_percentage: 20_000_000,
                stop_loss_threshold: 2_000_000,
                daily_trade_limit: 10,
            },
        )
    } else if is_keyword(profile, "medium") || is_keyword(profile, "moderate") {
        Some(
            WalletRiskLimits {
                max_daily_loss: 500_000_000,
                max_position_size: 5_000_000_000,
                max_concurrent_positions: 5,
                max_exposure_percentage: 50_000_000,
                stop_loss_threshold: 3_000_000,
                daily_trade_limit: 25,
            },
        )
    } else if is_keyword(profile, "high") || is_keyword(profile, "aggressive") {
        Some(
            WalletRiskLimits {
                max_daily_loss: 2_000_000_000,
                max_position_size: 20_000_000_000,
                max_concurrent_positions: 10,
                max_exposure_percentage: 80_000_000,
                stop_loss_threshold: 5_000_000,
                daily_trade_limit: 50,
            },
        )
    } else if is_keyword(profile, "experimental") {
        Some(
            WalletRiskLimits {
                max_daily_loss: 50_000_000,
                max_position_size: 500_000_000,
                max_concurrent_positions: 2,
                max_exposure_percentage: 10_000_000,
                stop_loss_threshold: 1_000_000,
                daily_trade_limit: 5,
            },
        )
    } else {
        None
    }
}

/// One allocation of a wallet type: the strategy, its share of the wallet's
/// allocation as a fraction, and its largest position.
pub struct AllocationRule {
    pub strategy_type: StrategyType,
    pub share: u64,
    pub max_position_size: u64,
}

/// The allocations of a wallet type, in order.
pub open spec fn allocation_rules(wallet_type: WalletType) -> Seq<AllocationRule> {
    match wallet_type {
        WalletType::Primary => seq![
            AllocationRule {
                strategy_type: StrategyType::TokenSniping,
                share: 400_000,
                max_position_size: 5_000_000_000,
            },
            AllocationRule {
                strategy_type: StrategyType::Arbitrage,
                share: 300_000,
                max_position_size: 3_000_000_000,
            },
            AllocationRule {
                strategy_type: StrategyType::MomentumTrading,
                share: 300_000,
                max_position_size: 2_000_000_000,
            },
        ],
        WalletType::HFT => seq![
            AllocationRule {
                strategy_type: StrategyType::Arbitrage,
                share: 600_000,
                max_position_size: 10_000_000_000,
            },
            AllocationRule {
                strategy_type: StrategyType::TokenSniping,
                share: 400_000,
                max_position_size: 8_000_000_000,
            },
        ],
        WalletType::Conservative => seq![
            AllocationRule {
                strategy_type: StrategyType::MomentumTrading,
                share: 700_000,
                max_position_size: 1_000_000_000,
            },
            AllocationRule {
                strategy_type: StrategyType::Arbitrage,
                share: 300_000,
                max_position_size: 500_000_000,
            },
        ],
        WalletType::Experimental => seq![
            AllocationRule {
                strategy_type: StrategyType::SoulMeteorSniping,
                share: 500_000,
                max_position_size: 200_000_000,
            },
            AllocationRule {
                strategy_type: StrategyType::MeteoraDAMM,
                share: 300_000,
                max_position_size: 150_000_000,
            },
            AllocationRule {
                strategy_type: StrategyType::DeveloperTracking,
                share: 200_000,
                max_position_size: 100_000_000,
            },
        ],
        WalletType::Arbitrage => seq![
            AllocationRule {
                strategy_type: StrategyType::Arbitrage,
                share: 1_000_000,
                max_position_size: 15_000_000_000,
            },
        ],
        WalletType::MEVProtection => seq![
            AllocationRule {
                strategy_type: StrategyType::TokenSniping,
                share: 600_000,
                max_position_size: 8_000_000_000,
            },
            AllocationRule {
                strategy_type: StrategyType::Arbitrage,
                share: 400_000,
                max_position_size: 5_000_000_000,
            },
        ],
        _ => seq![
            AllocationRule {
                strategy_type: StrategyType::MomentumTrading,
                share: 1_000_000,
                max_position_size: 1_000_000_000,
            },
        ],
    }
}

/// The enabled allocation that a rule gives a wallet with the allocation
/// `max_allocation`: the rule's share of the allocation, as a percentage.
pub open spec fn allocation_by(rule: AllocationRule, max_allocation: u64) -> StrategyAllocation {
    StrategyAllocation {
        strategy_type: rule.strategy_type,
        allocation_percentage: scaled_product(max_allocation * 100, rule.share as int) as u64,
        max_position_size: rule.max_position_size,
        enabled: true,
    }
}

/// The allocations of a wallet of the type `wallet_type` with the
/// allocation `max_allocation`.
pub open spec fn type_allocations(wallet_type: WalletType, max_allocation: u64) -> Seq<
    StrategyAllocation,
> {
    Seq::new(
        allocation_rules(wallet_type).len(),
        |i: int| allocation_by(allocation_rules(wallet_type)[i], max_allocation),
    )
}

/// The allocations of a wallet type are at most the wallet's allocation in
/// all, so at most 100% for an allocation of at most one.
pub proof fn lemma_type_allocations_within_bounds(wallet_type: WalletType, max_allocation: u64)
    requires
        max_allocation <= SCALE,
    ensures
        crate::modules::wallet_manager::enabled_allocation(
            type_allocations(wallet_type, max_allocation),
            type_allocations(wallet_type, max_allocation).len() as int,
        ) <= max_allocation * 100,
        max_allocation * 100 <= crate::fixed::HUNDRED_PERCENT,
{
    let list = type_allocations(wallet_type, max_allocation);
    let rules = allocation_rules(wallet_type);
    let base = max_allocation * 100;
    reveal_with_fuel(crate::modules::wallet_manager::enabled_allocation, 4);
    assert forall|i: int| 0 <= i < rules.len() implies 0 <= #[trigger] scaled_product(
        base,
        rules[i].share as int,
    ) <= u64::MAX && scaled_product(base, rules[i].share as int) * 1_000_000 <= base
        * rules[i].share by {
        crate::fixed::lemma_scaled_product_at_most(base, rules[i].share as int);
        assert(((base * rules[i].share) / 1_000_000) * 1_000_000 <= base * rules[i].share)
            by (nonlinear_arith)
            requires
                base * rules[i].share >= 0,
        ;
    }
    if rules.len() == 1 {
        assert(list[0].allocation_percentage as int == scaled_product(base, rules[0].share as int));
        assert(base * rules[0].share == base * 1_000_000) by (nonlinear_arith)
            requires
                rules[0].share == 1_000_000,
        ;
    } else if rules.len() == 2 {
        assert(list[0].allocation_percentage as int == scaled_product(base, rules[0].share as int));
        assert(list[1].allocation_percentage as int == scaled_product(base, rules[1].share as int));
        assert(base * rules[0].share + base * rules[1].share == base * 1_000_000)
            by (nonlinear_arith)
            requires
                rules[0].share + rules[1].share == 1_000_000,
        ;
    } else {
        assert(list[0].allocation_percentage as int == scaled_product(base, rules[0].share as int));
        assert(list[1].allocation_percentage as int == scaled_product(base, rules[1].share as int));
        assert(list[2].allocation_percentage as int == scaled_product(base, rules[2].share as int));
        assert(base * rules[0].share + base * rules[1].share + base * rules[2].share == base
            * 1_000_000) by (nonlinear_arith)
            requires
                rules[0].share + rules[1].share + rules[2].share == 1_000_000,
        ;
    }
}

/// Where the private key of a managed wallet is kept.
#[derive(Debug)]
pub enum KeySource {
    /// In the variable of the environment with this name.
    Environment(String),
    /// In the file at this path.
    File(String),
}

/// Whether a path names a variable of the environment: it begins with
/// `env:`.
pub open spec fn names_variable(path: Seq<char>) -> bool {
    path.len() >= 4 && path[0] == 'e' && path[1] == 'n' && path[2] == 'v' && path[3] == ':'
}

/// Where the private key at `path` is kept: in the variable named after
/// `env:`, or in the file at the path.
pub fn key_source(path: &str) -> (r: KeySource)
    ensures
        match r {
            KeySource::Environment(name) => names_variable(path@) && name@ == path@.skip(4),
            KeySource::File(file) => !names_variable(path@) && file@ == path@,
        },
{
    let v = chars_of(path);
    if v.len() >= 4 && v[0] == 'e' && v[1] == 'n' && v[2] == 'v' && v[3] == ':' {
        let name = crate::text::string_of(&v, 4, v.len());
        assert(v@.subrange(4, v.len() as int) =~= path@.skip(4));
        KeySource::Environment(name)
    } else {
        KeySource::File(String::from_str(path))
    }
}

/// The wallets that each strategy may use.
#[derive(Debug)]
pub struct StrategyRoute {
    pub strategy_type: StrategyType,
    pub wallet_ids: Vec<String>,
}

/// The configuration of the wallet fleet.
#[derive(Debug)]
pub struct MultiWalletConfig {
    pub default_wallet_id: String,
    pub wallets: Vec<WalletConfig>,
    pub global_settings: GlobalWalletSettings,
    pub strategy_routing: Vec<StrategyRoute>,
}

/// The kinds of strategy, in the order in which routes are listed.
pub open spec fn strategy_order() -> Seq<StrategyType> {
    seq![
        StrategyType::TokenSniping,
        StrategyType::Arbitrage,
        StrategyType::MomentumTrading,
        StrategyType::SoulMeteorSniping,
        StrategyType::MeteoraDAMM,
        StrategyType::DeveloperTracking,
        StrategyType::AxiomMemeCoin,
        StrategyType::AIDecision,
    ]
}

/// The kinds of strategy, in the order in which routes are listed.
pub fn all_strategies() -> (r: Vec<StrategyType>)
    ensures
        r@ == strategy_order(),
{
    let mut r: Vec<StrategyType> = Vec::new();
    r.push(StrategyType::TokenSniping);
    r.push(StrategyType::Arbitrage);
    r.push(StrategyType::MomentumTrading);
    r.push(StrategyType::SoulMeteorSniping);
    r.push(StrategyType::MeteoraDAMM);
    r.push(StrategyType::DeveloperTracking);
    r.push(StrategyType::AxiomMemeCoin);
    r.push(StrategyType::AIDecision);
    assert(r@ =~= strategy_order());
    r
}

/// Whether `route` lists, for its strategy, the wallets of `wallets` with an
/// enabled allocation to it, in their order.
pub open spec fn is_route(route: StrategyRoute, wallets: Seq<WalletConfig>) -> bool {
    let chosen = picked(serving_flags(wallets, route.strategy_type), wallets.len() as int);
    &&& route.wallet_ids@.len() == chosen.len()
    &&& forall|k: int|
        0 <= k < chosen.len() ==> (#[trigger] route.wallet_ids@[k])@ == wallets[chosen[k]].wallet_id@
}

/// The text of the description of a wallet that was configured from its
/// risk profile.
pub open spec fn auto_description(profile: Seq<char>) -> Seq<char> {
    "Auto-configured "@ + profile + " wallet"@
}

impl MultiWalletConfig {
    /// The managed wallets that `managed_wallets` defines: one definition
    /// between each two commas, read in order up to the first that has an
    /// error, which is then the result.
    pub fn parse_managed_wallets(managed_wallets: &str) -> (r: Result<
        Vec<EnvWalletConfig>,
        MultiWalletError,
    >)
        ensures
            ({
                let definitions = fields(managed_wallets@, ',');
                let n = valid_definitions(definitions);
                if n < definitions.len() {
                    r matches Err(e) && Err::<EnvWalletModel, MultiWalletError>(e)
                        == parsed_definition(definitions[n])
                } else {
                    &&& r matches Ok(configs)
                    &&& configs@.len() == definitions.len()
                    &&& configs@.len() >= 1
                    &&& forall|i: int|
                        0 <= i < configs@.len() ==> Ok::<EnvWalletModel, MultiWalletError>(
                            (#[trigger] configs@[i])@,
                        ) == parsed_definition(definitions[i])
                }
            }),
    {
        let definitions = split(managed_wallets, ',');
        let ghost texts = fields(managed_wallets@, ',');
        let mut configs: Vec<EnvWalletConfig> = Vec::new();
        let mut i: usize = 0;
        while i < definitions.len()
            invariant
                i <= definitions.len(),
                views(definitions@) == texts,
                texts == fields(managed_wallets@, ','),
                configs@.len() == i,
                forall|j: int| 0 <= j < i ==> (#[trigger] parsed_definition(texts[j])) is Ok,
                forall|j: int|
                    0 <= j < i ==> Ok::<EnvWalletModel, MultiWalletError>(
                        (#[trigger] configs@[j])@,
                    ) == parsed_definition(texts[j]),
            decreases definitions.len() - i,
        {
            assert(texts[i as int] == definitions@[i as int]@);
            let ghost earlier = configs@;
            match parse_wallet_definition(definitions[i].as_str()) {
                Ok(config) => {
                    configs.push(config);
                },
                Err(e) => {
                    proof {
                        assert(parsed_definition(texts[i as int]) is Err);
                        lemma_valid_definitions(texts, i as int);
                        assert(valid_definitions(texts) == i);
                        assert(parsed_definition(texts[i as int]) == Err::<
                            EnvWalletModel,
                            MultiWalletError,
                        >(e));
                    }
                    return Err(e);
                },
            }
            proof {
                assert forall|j: int| 0 <= j < i + 1 implies Ok::<EnvWalletModel, MultiWalletError>(
                    (#[trigger] configs@[j])@,
                ) == parsed_definition(texts[j]) by {
                    if j < i {
                        assert(configs@[j] == earlier[j]);
                    }
                }
            }
            i += 1;
        }
        proof {
            lemma_valid_definitions(texts, i as int);
        }
        if configs.len() == 0 {
            return Err(MultiWalletError::NoWallets);
        }
        Ok(configs)
    }

    /// The risk limits of a wallet with the risk profile `risk_profile` and
    /// the allocation `max_allocation`, or the error that the profile is not
    /// known.
    pub fn create_risk_limits(risk_profile: &str, max_allocation: u64) -> (r: Result<
        WalletRiskLimits,
        MultiWalletError,
    >)
        requires
            max_allocation <= SCALE,
        ensures
            match scaled_limits(risk_profile@, max_allocation) {
                Some(limits) => r == Ok::<WalletRiskLimits, MultiWalletError>(limits),
                None => r == Err::<WalletRiskLimits, MultiWalletError>(
                    MultiWalletError::InvalidRiskProfile,
                ),
            },
    {
        match base_limits(risk_profile) {
            None => Err(MultiWalletError::InvalidRiskProfile),
            Some(base) => {
                proof {
                    crate::fixed::lemma_scaled_product_at_most(
                        base.max_daily_loss as int,
                        max_allocation as int,
                    );
                    crate::fixed::lemma_scaled_product_at_most(
                        base.max_position_size as int,
                        max_allocation as int,
                    );
                }
                Ok(
                    WalletRiskLimits {
                        max_daily_loss: scaled_mul(base.max_daily_loss, max_allocation),
                        max_position_size: scaled_mul(base.max_position_size, max_allocation),
                        max_concurrent_positions: base.max_concurrent_positions,
                        max_exposure_percentage: base.max_exposure_percentage,
                        stop_loss_threshold: base.stop_loss_threshold,
                        daily_trade_limit: base.daily_trade_limit,
                    },
                )
            },
        }
    }

    /// The allocations of a wallet of the type `wallet_type` with the
    /// allocation `max_allocation`.
    pub fn create_strategy_allocations(wallet_type: WalletType, max_allocation: u64) -> (r: Vec<
        StrategyAllocation,
    >)
        requires
            max_allocation <= SCALE,
        ensures
            r@ == type_allocations(wallet_type, max_allocation),
    {
        let base: u64 = max_allocation * 100;
        let mut r: Vec<StrategyAllocation> = Vec::new();
        match wallet_type {
            WalletType::Primary => {
                r.push(allocation(StrategyType::TokenSniping, base, 400_000, 5_000_000_000));
                r.push(allocation(StrategyType::Arbitrage, base, 300_000, 3_000_000_000));
                r.push(allocation(StrategyType::MomentumTrading, base, 300_000, 2_000_000_000));
            },
            WalletType::HFT => {
                r.push(allocation(StrategyType::Arbitrage, base, 600_000, 10_000_000_000));
                r.push(allocation(StrategyType::TokenSniping, base, 400_000, 8_000_000_000));
            },
            WalletType::Conservative => {
                r.push(allocation(StrategyType::MomentumTrading, base, 700_000, 1_000_000_000));
                r.push(allocation(StrategyType::Arbitrage, base, 300_000, 500_000_000));
            },
            WalletType::Experimental => {
                r.push(allocation(StrategyType::SoulMeteorSniping, base, 500_000, 200_000_000));
                r.push(allocation(StrategyType::MeteoraDAMM, base, 300_000, 150_000_000));
                r.push(allocation(StrategyType::DeveloperTracking, base, 200_000, 100_000_000));
            },
            WalletType::Arbitrage => {
                r.push(allocation(StrategyType::Arbitrage, base, 1_000_000, 15_000_000_000));
            },
            WalletType::MEVProtection => {
                r.push(allocation(StrategyType::TokenSniping, base, 600_000, 8_000_000_000));
                r.push(allocation(StrategyType::Arbitrage, base, 400_000, 5_000_000_000));
            },
            _ => {
                r.push(allocation(StrategyType::MomentumTrading, base, 1_000_000, 1_000_000_000));
            },
        }
        assert(r@ =~= type_allocations(wallet_type, max_allocation));
        r
    }

    /// The configuration of the managed wallet `env_config`, whose private
    /// key is `private_key`, created at `now`: a wallet of its type, active,
    /// with the limits of its risk profile and the allocations of its type.
    /// An unknown risk profile is an error, and so is, after it, a private
    /// key that holds no key pair.
    pub fn build_wallet_config_from(env_config: &EnvWalletConfig, private_key: String, now: i64) -> (r:
        Result<WalletConfig, MultiWalletError>)
        requires
            env_config.max_allocation <= SCALE,
        ensures
            match scaled_limits(env_config.risk_profile@, env_config.max_allocation) {
                None => r matches Err(e) && e == MultiWalletError::InvalidRiskProfile,
                Some(limits) => match key_material(private_key@) {
                    Err(k) => r matches Err(e) && e == MultiWalletError::InvalidKey(k),
                    Ok(bytes) => {
                        &&& r matches Ok(config)
                        &&& config.wallet_id@ == env_config.wallet_id@
                        &&& config.name@ == env_config.name@
                        &&& config.description@ == auto_description(env_config.risk_profile@)
                        &&& config.private_key@ == private_key@
                        &&& config.public_key@ == keypair_address(bytes)
                        &&& config.wallet_type == env_config.wallet_type
                        &&& config.strategy_allocation@ == type_allocations(
                            env_config.wallet_type,
                            env_config.max_allocation,
                        )
                        &&& config.risk_limits == limits
                        &&& config.status == WalletStatus::Active
                        &&& config.created_at == now
                        &&& config.last_used is None
                    },
                },
            },
            r matches Ok(config) ==> crate::modules::wallet_manager::within_bounds(config),
    {
        let risk_limits = match Self::create_risk_limits(
            env_config.risk_profile.as_str(),
            env_config.max_allocation,
        ) {
            Ok(limits) => limits,
            Err(e) => {
                return Err(e);
            },
        };
        let strategy_allocation = Self::create_strategy_allocations(
            env_config.wallet_type,
            env_config.max_allocation,
        );
        let builder = match WalletConfigBuilder::new_at(
            env_config.wallet_id.clone(),
            env_config.name.clone(),
            private_key,
            now,
        ) {
            Ok(b) => b,
            Err(k) => {
                return Err(MultiWalletError::InvalidKey(k));
            },
        };
        let description = String::from_str("Auto-configured ").concat(
            env_config.risk_profile.as_str(),
        ).concat(" wallet");
        let mut config = builder.wallet_type(env_config.wallet_type).risk_limits(
            risk_limits,
        ).description(description).build();
        config.strategy_allocation = strategy_allocation;
        proof {
            lemma_type_allocations_within_bounds(env_config.wallet_type, env_config.max_allocation);
        }
        Ok(config)
    }

    /// The configuration of the managed wallet `env_config`, which is used
    /// up, whose private key is `private_key`, created at `now`: a wallet of its type, active,
    /// with the limits of its risk profile and the allocations of its type.
    /// An unknown risk profile is an error, and so is, after it, a private
    /// key that holds no key pair.
    pub fn build_wallet_config(env_config: EnvWalletConfig, private_key: String, now: i64) -> (r:
        Result<WalletConfig, MultiWalletError>)
        requires
            env_config.max_allocation <= SCALE,
        ensures
            match scaled_limits(env_config.risk_profile@, env_config.max_allocation) {
                None => r matches Err(e) && e == MultiWalletError::InvalidRiskProfile,
                Some(limits) => match key_material(private_key@) {
                    Err(k) => r matches Err(e) && e == MultiWalletError::InvalidKey(k),
                    Ok(bytes) => {
                        &&& r matches Ok(config)
                        &&& config.wallet_id@ == env_config.wallet_id@
                        &&& config.name@ == env_config.name@
                        &&& config.description@ == auto_description(env_config.risk_profile@)
                        &&& config.private_key@ == private_key@
                        &&& config.public_key@ == keypair_address(bytes)
                        &&& config.wallet_type == env_config.wallet_type
                        &&& config.strategy_allocation@ == type_allocations(
                            env_config.wallet_type,
                            env_config.max_allocation,
                        )
                        &&& config.risk_limits == limits
                        &&& config.status == WalletStatus::Active
                        &&& config.created_at == now
                        &&& config.last_used is None
                    },
                },
            },
            r matches Ok(config) ==> crate::modules::wallet_manager::within_bounds(config),
    {
        Self::build_wallet_config_from(&env_config, private_key, now)
    }

    /// The routes of the eight kinds of strategy through `wallets`.
    pub fn route_strategies(wallets: &Vec<WalletConfig>) -> (r: Vec<StrategyRoute>)
        ensures
            r@.len() == 8,
            forall|k: int|
                0 <= k < 8 ==> (#[trigger] r@[k]).strategy_type == strategy_order()[k] && is_route(
                    r@[k],
                    wallets@,
                ),
    {
        let kinds = all_strategies();
        let mut r: Vec<StrategyRoute> = Vec::new();
        let mut k: usize = 0;
        while k < kinds.len()
            invariant
                k <= kinds.len(),
                kinds@ == strategy_order(),
                r@.len() == k,
                forall|j: int|
                    0 <= j < k ==> (#[trigger] r@[j]).strategy_type == strategy_order()[j]
                        && is_route(r@[j], wallets@),
            decreases kinds.len() - k,
        {
            let ghost earlier = r@;
            let route = StrategyRoute {
                strategy_type: kinds[k],
                wallet_ids: serving_ids(wallets, kinds[k]),
            };
            assert(is_route(route, wallets@));
            r.push(route);
            proof {
                assert forall|j: int| 0 <= j < k + 1 implies (#[trigger] r@[j]).strategy_type
                    == strategy_order()[j] && is_route(r@[j], wallets@) by {
                    if j < k {
                        assert(r@[j] == earlier[j]);
                    }
                }
            }
            k += 1;
        }
        r
    }
}

/// The enabled allocation to `strategy_type` of the share `share` of the
/// percentage `base`.
pub fn allocation(strategy_type: StrategyType, base: u64, share: u64, max_position_size: u64) -> (r:
    StrategyAllocation)
    requires
        base <= 100 * SCALE,
        share <= SCALE,
    ensures
        r == (StrategyAllocation {
            strategy_type,
            allocation_percentage: scaled_product(base as int, share as int) as u64,
            max_position_size,
            enabled: true,
        }),
{
    proof {
        crate::fixed::lemma_scaled_product_at_most(base as int, share as int);
    }
    StrategyAllocation {
        strategy_type,
        allocation_percentage: scaled_mul(base, share),
        max_position_size,
        enabled: true,
    }
}


/// Whether `config` is the configuration of the managed wallet `model` with
/// the private key `private_key`, created at `now`.
pub open spec fn is_built(
    config: WalletConfig,
    model: EnvWalletModel,
    private_key: Seq<char>,
    now: i64,
) -> bool {
    &&& config.wallet_id@ == model.wallet_id
    &&& config.name@ == model.name
    &&& config.description@ == auto_description(model.risk_profile)
    &&& config.private_key@ == private_key
    &&& (key_material(private_key) matches Ok(bytes) && config.public_key@ == keypair_address(
        bytes,
    ))
    &&& config.wallet_type == model.wallet_type
    &&& config.strategy_allocation@ == type_allocations(model.wallet_type, model.max_allocation)
    &&& Some(config.risk_limits) == scaled_limits(model.risk_profile, model.max_allocation)
    &&& config.status == WalletStatus::Active
    &&& config.created_at == now
    &&& config.last_used is None
}

/// What stands against building the configuration of a managed wallet, if
/// anything does: an allocation above one, an unknown risk profile, or a
/// private key that holds no key pair.
pub open spec fn build_error(model: EnvWalletModel, private_key: Seq<char>) -> Option<
    MultiWalletError,
> {
    if model.max_allocation > SCALE {
        Some(MultiWalletError::AllocationOutOfRange)
    } else if scaled_limits(model.risk_profile, model.max_allocation) is None {
        Some(MultiWalletError::InvalidRiskProfile)
    } else if key_material(private_key) is Err {
        Some(MultiWalletError::InvalidKey(key_material(private_key)->Err_0))
    } else {
        None
    }
}

/// The number of managed wallets at the head of the list that can all be
/// built.
pub open spec fn buildable(models: Seq<EnvWalletConfig>, keys: Seq<String>, n: int) -> int
    decreases n,
{
    if n <= 0 {
        0
    } else if buildable(models, keys, n - 1) == n - 1 && build_error(
        models[n - 1]@,
        keys[n - 1]@,
    ) is None {
        n
    } else {
        buildable(models, keys, n - 1)
    }
}

/// The identifier of the default wallet: the one that is set, or else that
/// of the first managed wallet, or else `primary`.
pub open spec fn default_wallet(set: Option<String>, models: Seq<EnvWalletConfig>) -> Seq<char> {
    match set {
        Some(id) => id@,
        None => if models.len() > 0 {
            models[0].wallet_id@
        } else {
            "primary"@
        },
    }
}

impl MultiWalletConfig {
    /// The configuration of the fleet of the managed wallets `env_configs`,
    /// whose private keys are `private_keys` in the same order, with the
    /// settings `global_settings`, as of `now`. The wallets are built in
    /// order; a wallet with the identifier of an earlier one takes its
    /// place. The first wallet that cannot be built gives the error. Each
    /// kind of strategy is routed to the wallets with an enabled allocation
    /// to it.
    pub fn assemble(
        env_configs: Vec<EnvWalletConfig>,
        private_keys: Vec<String>,
        default_wallet_id: Option<String>,
        global_settings: GlobalWalletSettings,
        now: i64,
    ) -> (r: Result<Self, MultiWalletError>)
        ensures
            env_configs@.len() != private_keys@.len() ==> (r matches Err(e) && e
                == MultiWalletError::MissingKey),
            env_configs@.len() == private_keys@.len() ==> ({
                let n = env_configs@.len() as int;
                let good = buildable(env_configs@, private_keys@, n);
                if good < n {
                    r matches Err(e) && Some(e) == build_error(
                        env_configs@[good]@,
                        private_keys@[good]@,
                    )
                } else {
                    &&& r matches Ok(config)
                    &&& config.default_wallet_id@ == default_wallet(default_wallet_id, env_configs@)
                    &&& config.global_settings == global_settings
                    &&& distinct(wallet_ids(config.wallets@))
                    &&& exists|built: Seq<WalletConfig>|
                        {
                            &&& built.len() == n
                            &&& forall|i: int|
                                0 <= i < n ==> is_built(
                                    #[trigger] built[i],
                                    env_configs@[i]@,
                                    private_keys@[i]@,
                                    now,
                                )
                            &&& config.wallets@ == crate::modules::wallet_manager::loaded(
                                Seq::<WalletConfig>::empty(),
                                built,
                                n,
                            )
                        }
                    &&& config.strategy_routing@.len() == 8
                    &&& forall|k: int|
                        0 <= k < 8 ==> (#[trigger] config.strategy_routing@[k]).strategy_type
                            == strategy_order()[k] && is_route(
                            config.strategy_routing@[k],
                            config.wallets@,
                        )
                }
            }),
    {
        if env_configs.len() != private_keys.len() {
            return Err(MultiWalletError::MissingKey);
        }
        let default_id = match default_wallet_id {
            Some(id) => id,
            None => if env_configs.len() > 0 {
                env_configs[0].wallet_id.clone()
            } else {
                String::from_str("primary")
            },
        };
        let ghost models = env_configs@;
        let ghost keys = private_keys@;
        let ghost n = models.len() as int;
        let mut wallets: Vec<WalletConfig> = Vec::new();
        let ghost mut built: Seq<WalletConfig> = Seq::empty();
        let mut i: usize = 0;
        while i < env_configs.len()
            invariant
                models == env_configs@,
                keys == private_keys@,
                n == models.len(),
                keys.len() == n,
                i <= n,
                distinct(wallet_ids(wallets@)),
                built.len() == i,
                buildable(models, keys, i as int) == i,
                forall|j: int|
                    0 <= j < i ==> is_built(#[trigger] built[j], models[j]@, keys[j]@, now),
                wallets@ == crate::modules::wallet_manager::loaded(
                    Seq::<WalletConfig>::empty(),
                    built,
                    i as int,
                ),
            decreases env_configs.len() - i,
        {
            let env_config = &env_configs[i];
            let key = private_keys[i].clone();
            if env_config.max_allocation > SCALE {
                proof {
                    lemma_buildable_stops(models, keys, i as int, n);
                }
                return Err(MultiWalletError::AllocationOutOfRange);
            }
            let config = match Self::build_wallet_config_from(env_config, key, now) {
                Ok(c) => c,
                Err(e) => {
                    proof {
                        lemma_buildable_stops(models, keys, i as int, n);
                    }
                    return Err(e);
                },
            };
            proof {
                let before = built;
                built = built.push(config);
                assert forall|j: int| 0 <= j < i + 1 implies is_built(
                    #[trigger] built[j],
                    models[j]@,
                    keys[j]@,
                    now,
                ) by {
                    if j < i {
                        assert(built[j] == before[j]);
                    }
                }
                lemma_loaded_extends(Seq::<WalletConfig>::empty(), before, config, i as int);
                lemma_upserted_distinct(wallets@, config);
            }
            put_wallet(&mut wallets, config);
            i += 1;
        }
        let strategy_routing = Self::route_strategies(&wallets);
        Ok(
            MultiWalletConfig {
                default_wallet_id: default_id,
                wallets,
                global_settings,
                strategy_routing,
            },
        )
    }
}

/// Once a managed wallet cannot be built, no more wallets are buildable than
/// those before it.
pub proof fn lemma_buildable_stops(models: Seq<EnvWalletConfig>, keys: Seq<String>, at: int, n: int)
    requires
        0 <= at < n,
        buildable(models, keys, at) == at,
        build_error(models[at]@, keys[at]@) is Some,
    ensures
        buildable(models, keys, n) == at,
    decreases n - at,
{
    if n > at + 1 {
        lemma_buildable_stops(models, keys, at, n - 1);
    }
}

/// Loading one more wallet puts it into what was loaded before.
pub proof fn lemma_loaded_extends(
    start: Seq<WalletConfig>,
    built: Seq<WalletConfig>,
    config: WalletConfig,
    n: int,
)
    requires
        n == built.len(),
    ensures
        crate::modules::wallet_manager::loaded(start, built.push(config), n + 1) == upserted(
            crate::modules::wallet_manager::loaded(start, built, n),
            config,
        ),
{
    lemma_loaded_prefix(start, built, config, n);
}

/// What is loaded from the head of a list does not depend on what follows.
pub proof fn lemma_loaded_prefix(
    start: Seq<WalletConfig>,
    built: Seq<WalletConfig>,
    config: WalletConfig,
    k: int,
)
    requires
        0 <= k <= built.len(),
    ensures
        crate::modules::wallet_manager::loaded(start, built.push(config), k)
            == crate::modules::wallet_manager::loaded(start, built, k),
    decreases k,
{
    if k > 0 {
        lemma_loaded_prefix(start, built, config, k - 1);
        assert(built.push(config)[k - 1] == built[k - 1]);
    }
}

/// Puts `config` into `wallets`: in the place of the wallet with the same
/// identifier, or at the end.
pub fn put_wallet(wallets: &mut Vec<WalletConfig>, config: WalletConfig)
    ensures
        final(wallets)@ == upserted(old(wallets)@, config),
{
    let ghost ids = wallet_ids(wallets@);
    let mut i: usize = 0;
    while i < wallets.len()
        invariant
            i <= wallets@.len(),
            wallets@ == old(wallets)@,
            ids == wallet_ids(wallets@),
            forall|j: int| 0 <= j < i ==> ids[j] != config.wallet_id@,
        decreases wallets.len() - i,
    {
        if crate::text::same_text(wallets[i].wallet_id.as_str(), config.wallet_id.as_str()) {
            proof {
                crate::lists::lemma_index_in_is(ids, config.wallet_id@, i as int);
            }
            wallets.set(i, config);
            return ;
        }
        i += 1;
    }
    proof {
        crate::lists::lemma_index_in(ids, config.wallet_id@);
    }
    wallets.push(config);
}

} // verus!
