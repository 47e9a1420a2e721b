//! The wallet registry: the signing identities of the engine, each with its
//! type, its risk limits, its allocations to strategies and its metrics; and
//! the router that picks a wallet for a trade.

use vstd::prelude::*;
use vstd::string::StringExecFns;
use crate::fixed::{lemma_product_fits, HUNDRED_PERCENT, SCALE};
use crate::modules::strategy::{StrategyType, TradeAction};
use crate::platform::now_millis;
use crate::lists::{distinct, index_in, lemma_index_in, lemma_index_in_is, picked};
use crate::text::{chars_of, lex_less, text_less};

verus! {

/// What a wallet is for.
#[derive(Debug, Clone, Copy, PartialEq, Eq, Structural, Hash)]
pub enum WalletType {
    Primary,
    Secondary,
    HFT,
    Conservative,
    Experimental,
    Arbitrage,
    MEVProtection,
    Emergency,
}

/// Whether a wallet may trade.
#[derive(Debug, Clone, Copy, PartialEq, Eq, Structural, Hash)]
pub enum WalletStatus {
    Active,
    Inactive,
    Suspended,
    Emergency,
    Maintenance,
}

/// The status of a wallet that a name stands for; none for any other
/// name.
pub open spec fn wallet_status_named(name: Seq<char>) -> Option<WalletStatus> {
    if name == "Active"@ {
        Some(WalletStatus::Active)
    } else if name == "Inactive"@ {
        Some(WalletStatus::Inactive)
    } else if name == "Suspended"@ {
        Some(WalletStatus::Suspended)
    } else if name == "Emergency"@ {
        Some(WalletStatus::Emergency)
    } else if name == "Maintenance"@ {
        Some(WalletStatus::Maintenance)
    } else {
        None
    }
}

/// The status of a wallet that `name` stands for.
pub fn parse_wallet_status(name: &str) -> (r: Option<WalletStatus>)
    ensures
        r == wallet_status_named(name@),
{
    if crate::text::same_text(name, "Active") {
        Some(WalletStatus::Active)
    } else if crate::text::same_text(name, "Inactive") {
        Some(WalletStatus::Inactive)
    } else if crate::text::same_text(name, "Suspended") {
        Some(WalletStatus::Suspended)
    } else if crate::text::same_text(name, "Emergency") {
        Some(WalletStatus::Emergency)
    } else if crate::text::same_text(name, "Maintenance") {
        Some(WalletStatus::Maintenance)
    } else {
        None
    }
}

/// The share of a wallet that a strategy may use. The percentage and the
/// largest position are in millionths.
#[derive(Debug, Clone, Copy, PartialEq, Eq, Structural)]
pub struct StrategyAllocation {
    pub strategy_type: StrategyType,
    pub allocation_percentage: u64,
    pub max_position_size: u64,
    pub enabled: bool,
}

/// The risk limits of a wallet. Amounts and percentages are in millionths.
#[derive(Debug, Clone, Copy, PartialEq, Eq, Structural)]
pub struct WalletRiskLimits {
    pub max_daily_loss: u64,
    pub max_position_size: u64,
    pub max_concurrent_positions: u32,
    pub max_exposure_percentage: u64,
    pub stop_loss_threshold: u64,
    pub daily_trade_limit: u32,
}

/// The limits of a wallet that was given none: a daily loss of 1000, a
/// position of 10000, 10 positions at once, 80% exposure, a stop loss of 5%
/// and 100 trades a day.
pub open spec fn standard_limits() -> WalletRiskLimits {
    WalletRiskLimits {
        max_daily_loss: 1_000_000_000,
        max_position_size: 10_000_000_000,
        max_concurrent_positions: 10,
        max_exposure_percentage: 80_000_000,
        stop_loss_threshold: 5_000_000,
        daily_trade_limit: 100,
    }
}

impl Default for WalletRiskLimits {
    fn default() -> (r: Self)
        ensures
            r == standard_limits(),
    {
        WalletRiskLimits {
            max_daily_loss: 1_000_000_000,
            max_position_size: 10_000_000_000,
            max_concurrent_positions: 10,
            max_exposure_percentage: 80_000_000,
            stop_loss_threshold: 5_000_000,
            daily_trade_limit: 100,
        }
    }
}

/// A wallet as it is configured. Timestamps are in milliseconds since the
/// Unix epoch.
#[derive(Debug)]
pub struct WalletConfig {
    pub wallet_id: String,
    pub name: String,
    pub description: String,
    pub private_key: String,
    pub public_key: String,
    pub wallet_type: WalletType,
    pub strategy_allocation: Vec<StrategyAllocation>,
    pub risk_limits: WalletRiskLimits,
    pub status: WalletStatus,
    pub created_at: i64,
    pub last_used: Option<i64>,
}

/// A copy of a list of allocations.
pub fn copy_allocations(list: &Vec<StrategyAllocation>) -> (r: Vec<StrategyAllocation>)
    ensures
        r@ == list@,
{
    let mut r: Vec<StrategyAllocation> = Vec::new();
    let mut i: usize = 0;
    while i < list.len()
        invariant
            i <= list.len(),
            r@ == list@.take(i as int),
        decreases list.len() - i,
    {
        r.push(list[i]);
        i += 1;
        assert(list@.take(i as int) == list@.take(i - 1).push(list@[i - 1]));
    }
    assert(list@.take(list.len() as int) == list@);
    r
}

impl WalletConfig {
    /// Whether two configurations agree in every field, strings taken as
    /// texts and the allocations as a list.
    pub open spec fn same_as(&self, other: WalletConfig) -> bool {
        &&& self.wallet_id@ == other.wallet_id@
        &&& self.name@ == other.name@
        &&& self.description@ == other.description@
        &&& self.private_key@ == other.private_key@
        &&& self.public_key@ == other.public_key@
        &&& self.wallet_type == other.wallet_type
        &&& self.strategy_allocation@ == other.strategy_allocation@
        &&& self.risk_limits == other.risk_limits
        &&& self.status == other.status
        &&& self.created_at == other.created_at
        &&& self.last_used == other.last_used
    }

    /// Whether the wallet has an enabled allocation to `strategy`.
    pub open spec fn serves(&self, strategy: StrategyType) -> bool {
        exists|i: int|
            0 <= i < self.strategy_allocation@.len() && (#[trigger] self.strategy_allocation@[i]).strategy_type
                == strategy && self.strategy_allocation@[i].enabled
    }

    /// The configuration with another status.
    pub open spec fn with_status(&self, status: WalletStatus) -> WalletConfig {
        WalletConfig { status, ..*self }
    }
}

impl Clone for WalletConfig {
    fn clone(&self) -> (r: Self)
        ensures
            r.same_as(*self),
    {
        WalletConfig {
            wallet_id: self.wallet_id.clone(),
            name: self.name.clone(),
            description: self.description.clone(),
            private_key: self.private_key.clone(),
            public_key: self.public_key.clone(),
            wallet_type: self.wallet_type,
            strategy_allocation: copy_allocations(&self.strategy_allocation),
            risk_limits: self.risk_limits,
            status: self.status,
            created_at: self.created_at,
            last_used: self.last_used,
        }
    }
}

/// The balance of one token in a wallet, in millionths.
#[derive(Debug)]
pub struct TokenBalance {
    pub symbol: String,
    pub amount: u64,
}

/// The balance and the performance of a wallet. Amounts, the risk
/// utilization (a percentage) and the performance score are in millionths.
#[derive(Debug)]
pub struct WalletMetrics {
    pub wallet_id: String,
    pub sol_balance: u64,
    pub token_balances: Vec<TokenBalance>,
    pub total_value_usd: u64,
    pub daily_pnl: i64,
    pub total_pnl: i64,
    pub trade_count_today: u32,
    pub last_trade_time: Option<i64>,
    pub risk_utilization: u64,
    pub performance_score: i64,
    pub updated_at: i64,
}

/// The numbers of a wallet's metrics.
#[derive(Debug, Clone, Copy, PartialEq, Eq, Structural)]
pub struct MetricsSnapshot {
    pub sol_balance: u64,
    pub total_value_usd: u64,
    pub daily_pnl: i64,
    pub total_pnl: i64,
    pub trade_count_today: u32,
    pub last_trade_time: Option<i64>,
    pub risk_utilization: u64,
    pub performance_score: i64,
    pub updated_at: i64,
}

impl WalletMetrics {
    /// The numbers of the metrics.
    pub open spec fn numbers(&self) -> MetricsSnapshot {
        MetricsSnapshot {
            sol_balance: self.sol_balance,
            total_value_usd: self.total_value_usd,
            daily_pnl: self.daily_pnl,
            total_pnl: self.total_pnl,
            trade_count_today: self.trade_count_today,
            last_trade_time: self.last_trade_time,
            risk_utilization: self.risk_utilization,
            performance_score: self.performance_score,
            updated_at: self.updated_at,
        }
    }

    /// The numbers of the metrics.
    pub fn snapshot(&self) -> (r: MetricsSnapshot)
        ensures
            r == self.numbers(),
    {
        MetricsSnapshot {
            sol_balance: self.sol_balance,
            total_value_usd: self.total_value_usd,
            daily_pnl: self.daily_pnl,
            total_pnl: self.total_pnl,
            trade_count_today: self.trade_count_today,
            last_trade_time: self.last_trade_time,
            risk_utilization: self.risk_utilization,
            performance_score: self.performance_score,
            updated_at: self.updated_at,
        }
    }

    /// The balances of the tokens in the wallet, as values: each symbol
    /// with its amount.
    pub open spec fn tokens(&self) -> Seq<(Seq<char>, u64)> {
        Seq::new(
            self.token_balances@.len(),
            |i: int| (self.token_balances@[i].symbol@, self.token_balances@[i].amount),
        )
    }

    /// Whether two metrics agree: they are of the same wallet, with the
    /// same numbers and the same balances of tokens.
    pub open spec fn same_as(&self, other: WalletMetrics) -> bool {
        &&& self.wallet_id@ == other.wallet_id@
        &&& self.numbers() == other.numbers()
        &&& self.tokens() == other.tokens()
    }

    /// Metrics of the wallet `wallet_id` with nothing in it and nothing
    /// traded, as of `now`.
    pub fn empty(wallet_id: String, now: i64) -> (r: Self)
        ensures
            r.wallet_id == wallet_id,
            r.token_balances@.len() == 0,
            r.numbers() == (MetricsSnapshot {
                sol_balance: 0,
                total_value_usd: 0,
                daily_pnl: 0,
                total_pnl: 0,
                trade_count_today: 0,
                last_trade_time: None,
                risk_utilization: 0,
                performance_score: 0,
                updated_at: now,
            }),
    {
        WalletMetrics {
            wallet_id,
            sol_balance: 0,
            token_balances: Vec::new(),
            total_value_usd: 0,
            daily_pnl: 0,
            total_pnl: 0,
            trade_count_today: 0,
            last_trade_time: None,
            risk_utilization: 0,
            performance_score: 0,
            updated_at: now,
        }
    }
}

impl Clone for WalletMetrics {
    fn clone(&self) -> (r: Self)
        ensures
            r.same_as(*self),
    {
        let mut token_balances: Vec<TokenBalance> = Vec::new();
        let mut i: usize = 0;
        while i < self.token_balances.len()
            invariant
                i <= self.token_balances@.len(),
                token_balances@.len() == i,
                forall|k: int|
                    0 <= k < i ==> (#[trigger] token_balances@[k]).symbol@
                        == self.token_balances@[k].symbol@ && token_balances@[k].amount
                        == self.token_balances@[k].amount,
            decreases self.token_balances.len() - i,
        {
            token_balances.push(
                TokenBalance {
                    symbol: self.token_balances[i].symbol.clone(),
                    amount: self.token_balances[i].amount,
                },
            );
            i += 1;
        }
        let r = WalletMetrics {
            wallet_id: self.wallet_id.clone(),
            sol_balance: self.sol_balance,
            token_balances,
            total_value_usd: self.total_value_usd,
            daily_pnl: self.daily_pnl,
            total_pnl: self.total_pnl,
            trade_count_today: self.trade_count_today,
            last_trade_time: self.last_trade_time,
            risk_utilization: self.risk_utilization,
            performance_score: self.performance_score,
            updated_at: self.updated_at,
        };
        assert(r.tokens() =~= self.tokens());
        r
    }
}

/// An open position of a wallet. Quantity, prices and the unrealized profit
/// are in millionths.
#[derive(Debug)]
pub struct Position {
    pub position_id: String,
    pub wallet_id: String,
    pub symbol: String,
    pub strategy_type: StrategyType,
    pub action: TradeAction,
    pub quantity: u64,
    pub entry_price: u64,
    pub current_price: u64,
    pub unrealized_pnl: i64,
    pub opened_at: i64,
    pub updated_at: i64,
}

/// What a trade asks of the wallet that is to carry it. The size of the
/// position, the required balance and the risk tolerance are in millionths.
#[derive(Debug)]
pub struct WalletSelectionCriteria {
    pub strategy_type: StrategyType,
    pub position_size: u64,
    pub required_balance: u64,
    pub risk_tolerance: u64,
    pub preferred_wallet_type: Option<WalletType>,
    pub exclude_wallets: Vec<String>,
}

/// The wallet that the router picked. The balance, the risk capacity and the
/// score are in millionths.
#[derive(Debug)]
pub struct WalletSelection {
    pub wallet_id: String,
    pub wallet_config: WalletConfig,
    pub available_balance: u64,
    pub risk_capacity: i128,
    pub selection_score: i128,
    pub selection_reason: String,
}

/// Why a private key could not be read.
#[derive(Debug, Clone, Copy, PartialEq, Eq, Structural)]
pub enum KeyError {
    /// The text is in brackets but is no JSON array of bytes.
    MalformedArray,
    /// The array does not hold 64 bytes.
    WrongLength,
    /// The 64 bytes are no key pair.
    InvalidKeypair,
    /// The text is neither an array of bytes nor 64 bytes in base 58.
    UnsupportedFormat,
}

/// Why an operation of the registry failed.
#[derive(Debug, Clone, Copy, PartialEq, Eq, Structural)]
pub enum WalletError {
    /// The wallet has no identifier.
    EmptyWalletId,
    /// The wallet's private key could not be read.
    InvalidPrivateKey(KeyError),
    /// The enabled allocations add up to more than 100%.
    AllocationExceeded,
    /// The largest exposure is more than 100%.
    ExposureExceeded,
    /// No wallet has this identifier.
    WalletNotFound,
    /// The wallet has no metrics.
    MetricsNotFound,
    /// No wallet can carry the trade.
    NoSuitableWallet,
    /// The wallet is not in emergency mode.
    NotInEmergency,
}

/// A key pair of `solana_sdk`.
#[verifier::external_type_specification]
#[verifier::external_body]
pub struct ExKeypair(solana_sdk::signature::Keypair);

/// The bytes that `serde_json` reads from a text as an array of bytes, if it
/// reads one.
pub uninterp spec fn json_byte_array(text: Seq<char>) -> Option<Seq<u8>>;

/// The bytes that `bs58` decodes from a text, if it decodes it.
pub uninterp spec fn base58_decoded(text: Seq<char>) -> Option<Seq<u8>>;

/// Whether `solana_sdk` takes the bytes for a key pair.
pub uninterp spec fn keypair_accepts(bytes: Seq<u8>) -> bool;

/// The address, in base 58, of the public key of the key pair that the bytes
/// hold.
pub uninterp spec fn keypair_address(bytes: Seq<u8>) -> Seq<char>;

/// The bytes of a key pair: its secret key and then its public key.
pub uninterp spec fn keypair_bytes(keypair: solana_sdk::signature::Keypair) -> Seq<u8>;

/// The bytes of an optional vector.
pub open spec fn bytes_of(v: Option<Vec<u8>>) -> Option<Seq<u8>> {
    match v {
        Some(bytes) => Some(bytes@),
        None => None,
    }
}

/// `serde_json::from_str` at `Vec<u8>`: the bytes that `text` spells as a
/// JSON array of numbers from 0 to 255, or none where it spells no such
/// array.
#[verifier::external_body]
pub(crate) fn decode_json_bytes(text: &str) -> (r: Option<Vec<u8>>)
    ensures
        bytes_of(r) == json_byte_array(text@),
{
    serde_json::from_str::<Vec<u8>>(text).ok()
}

/// `bs58::decode` with `into_vec`: the bytes that `text` spells in base 58
/// with the Bitcoin alphabet, or none where it spells none.
#[verifier::external_body]
pub(crate) fn decode_base58(text: &str) -> (r: Option<Vec<u8>>)
    ensures
        bytes_of(r) == base58_decoded(text@),
{
    bs58::decode(text).into_vec().ok()
}

/// `Keypair::try_from` of `solana_sdk` on a slice of bytes: the key pair
/// that the bytes hold, where they are a secret key followed by the public
/// key that belongs to it. The key pair then holds those bytes.
#[verifier::external_body]
pub(crate) fn keypair_from_bytes(bytes: &Vec<u8>) -> (r: Option<solana_sdk::signature::Keypair>)
    ensures
        r is Some <==> keypair_accepts(bytes@),
        r matches Some(keypair) ==> keypair_bytes(keypair) == bytes@,
{
    solana_sdk::signature::Keypair::try_from(bytes.as_slice()).ok()
}

/// `Signer::pubkey` of `solana_sdk` on a key pair, printed by `to_string`:
/// the address of the key pair's public key in base 58.
#[verifier::external_body]
pub(crate) fn keypair_public_text(keypair: &solana_sdk::signature::Keypair) -> (r: String)
    ensures
        r@ == keypair_address(keypair_bytes(*keypair)),
{
    solana_sdk::signer::Signer::pubkey(keypair).to_string()
}

/// Whether a text is in square brackets.
pub open spec fn bracketed(text: Seq<char>) -> bool {
    text.len() > 0 && text[0] == '[' && text.last() == ']'
}

/// The bytes of the key pair that a private key's text holds, or why it
/// holds none. A text in square brackets is read as a JSON array of 64
/// bytes; any other text as 64 bytes in base 58.
pub open spec fn key_material(text: Seq<char>) -> Result<Seq<u8>, KeyError> {
    if bracketed(text) {
        match json_byte_array(text) {
            None => Err(KeyError::MalformedArray),
            Some(bytes) => if bytes.len() != 64 {
                Err(KeyError::WrongLength)
            } else if keypair_accepts(bytes) {
                Ok(bytes)
            } else {
                Err(KeyError::InvalidKeypair)
            },
        }
    } else {
        match base58_decoded(text) {
            Some(bytes) => if bytes.len() != 64 {
                Err(KeyError::UnsupportedFormat)
            } else if keypair_accepts(bytes) {
                Ok(bytes)
            } else {
                Err(KeyError::InvalidKeypair)
            },
            None => Err(KeyError::UnsupportedFormat),
        }
    }
}

/// Whether `text` is in square brackets.
pub fn is_bracketed(text: &str) -> (r: bool)
    ensures
        r == bracketed(text@),
{
    let v = chars_of(text);
    v.len() > 0 && v[0] == '[' && v[v.len() - 1] == ']'
}

/// The key pair that 64 decoded bytes hold, or that they hold none.
pub fn keypair_of(bytes: Vec<u8>) -> (r: Result<solana_sdk::signature::Keypair, KeyError>)
    ensures
        r is Ok <==> keypair_accepts(bytes@),
        r matches Ok(keypair) ==> keypair_bytes(keypair) == bytes@,
        r matches Err(e) ==> e == KeyError::InvalidKeypair,
{
    match keypair_from_bytes(&bytes) {
        Some(keypair) => Ok(keypair),
        None => Err(KeyError::InvalidKeypair),
    }
}

/// The key pair that the text of a private key holds, or why it holds none.
pub fn parse_private_key(private_key: &str) -> (r: Result<
    solana_sdk::signature::Keypair,
    KeyError,
>)
    ensures
        match key_material(private_key@) {
            Ok(bytes) => r matches Ok(keypair) && keypair_bytes(keypair) == bytes,
            Err(e) => r matches Err(f) && f == e,
        },
{
    if is_bracketed(private_key) {
        match decode_json_bytes(private_key) {
            None => Err(KeyError::MalformedArray),
            Some(bytes) => {
                if bytes.len() != 64 {
                    Err(KeyError::WrongLength)
                } else {
                    keypair_of(bytes)
                }
            },
        }
    } else {
        match decode_base58(private_key) {
            Some(bytes) => {
                if bytes.len() != 64 {
                    Err(KeyError::UnsupportedFormat)
                } else {
                    keypair_of(bytes)
                }
            },
            None => Err(KeyError::UnsupportedFormat),
        }
    }
}

/// The sum of the percentages of the enabled allocations among the first
/// `n` of `list`.
pub open spec fn enabled_allocation(list: Seq<StrategyAllocation>, n: int) -> int
    decreases n,
{
    if n <= 0 {
        0
    } else {
        enabled_allocation(list, n - 1) + if list[n - 1].enabled {
            list[n - 1].allocation_percentage as int
        } else {
            0
        }
    }
}

/// The sum of enabled allocations is not negative and grows by at most the
/// largest number with each allocation.
pub proof fn lemma_enabled_allocation_bounds(list: Seq<StrategyAllocation>, n: int)
    requires
        0 <= n <= list.len(),
    ensures
        0 <= enabled_allocation(list, n) <= n * u64::MAX,
    decreases n,
{
    if n > 0 {
        lemma_enabled_allocation_bounds(list, n - 1);
    }
}

/// The first thing that is wrong with a wallet's configuration, if anything
/// is: no identifier; a private key that cannot be read; enabled
/// allocations of more than 100% in all; an exposure of more than 100%.
pub open spec fn config_error(config: WalletConfig) -> Option<WalletError> {
    if config.wallet_id@.len() == 0 {
        Some(WalletError::EmptyWalletId)
    } else if key_material(config.private_key@) is Err {
        Some(WalletError::InvalidPrivateKey(key_material(config.private_key@)->Err_0))
    } else if enabled_allocation(
        config.strategy_allocation@,
        config.strategy_allocation@.len() as int,
    ) > HUNDRED_PERCENT {
        Some(WalletError::AllocationExceeded)
    } else if config.risk_limits.max_exposure_percentage > HUNDRED_PERCENT {
        Some(WalletError::ExposureExceeded)
    } else {
        None
    }
}

/// Whether the numbers of a configuration are within bounds: its enabled
/// allocations are at most 100% in all, and so is its exposure.
pub open spec fn within_bounds(config: WalletConfig) -> bool {
    &&& enabled_allocation(
        config.strategy_allocation@,
        config.strategy_allocation@.len() as int,
    ) <= HUNDRED_PERCENT
    &&& config.risk_limits.max_exposure_percentage <= HUNDRED_PERCENT
}

/// Whether the enabled allocations of `list` are at most 100% in all.
pub fn allocation_within_bounds(list: &Vec<StrategyAllocation>) -> (r: bool)
    ensures
        r == (enabled_allocation(list@, list@.len() as int) <= HUNDRED_PERCENT),
{
    let mut total: u128 = 0;
    let mut i: usize = 0;
    while i < list.len()
        invariant
            i <= list.len(),
            total as int == enabled_allocation(list@, i as int),
            total <= i * u64::MAX,
        decreases list.len() - i,
    {
        assert((i + 1) * u64::MAX <= usize::MAX * u64::MAX) by (nonlinear_arith)
            requires
                i + 1 <= usize::MAX,
        ;
        if list[i].enabled {
            total = total + list[i].allocation_percentage as u128;
        }
        i += 1;
    }
    total <= HUNDRED_PERCENT as u128
}

/// Checks a wallet's configuration.
pub fn validate_wallet_config(config: &WalletConfig) -> (r: Result<(), WalletError>)
    ensures
        match config_error(*config) {
            Some(e) => r == Err::<(), WalletError>(e),
            None => r is Ok,
        },
        r is Ok ==> within_bounds(*config),
{
    if config.wallet_id.as_str().unicode_len() == 0 {
        return Err(WalletError::EmptyWalletId);
    }
    match parse_private_key(config.private_key.as_str()) {
        Err(e) => {
            return Err(WalletError::InvalidPrivateKey(e));
        },
        Ok(_) => {},
    }
    if !allocation_within_bounds(&config.strategy_allocation) {
        return Err(WalletError::AllocationExceeded);
    }
    if config.risk_limits.max_exposure_percentage > HUNDRED_PERCENT {
        return Err(WalletError::ExposureExceeded);
    }
    Ok(())
}


/// The identifiers of a list of wallets.
pub open spec fn wallet_ids(wallets: Seq<WalletConfig>) -> Seq<Seq<char>> {
    Seq::new(wallets.len(), |i: int| wallets[i].wallet_id@)
}

/// The identifiers of the wallets of a list of metrics.
pub open spec fn metrics_ids(metrics: Seq<WalletMetrics>) -> Seq<Seq<char>> {
    Seq::new(metrics.len(), |i: int| metrics[i].wallet_id@)
}

/// The list of wallets with `config` put in: in the place of the wallet
/// with the same identifier, or at the end where there is none.
pub open spec fn upserted(wallets: Seq<WalletConfig>, config: WalletConfig) -> Seq<WalletConfig> {
    match index_in(wallet_ids(wallets), config.wallet_id@) {
        Some(i) => wallets.update(i, config),
        None => wallets.push(config),
    }
}

/// The list of metrics with `metrics` put in: in the place of the metrics
/// of the same wallet, or at the end where there are none.
pub open spec fn metrics_upserted(list: Seq<WalletMetrics>, metrics: WalletMetrics) -> Seq<
    WalletMetrics,
> {
    match index_in(metrics_ids(list), metrics.wallet_id@) {
        Some(i) => list.update(i, metrics),
        None => list.push(metrics),
    }
}

/// Putting a wallet into a list without repeated identifiers leaves no
/// identifier repeated.
pub proof fn lemma_upserted_distinct(wallets: Seq<WalletConfig>, config: WalletConfig)
    requires
        distinct(wallet_ids(wallets)),
    ensures
        distinct(wallet_ids(upserted(wallets, config))),
{
    let ids = wallet_ids(wallets);
    let after = wallet_ids(upserted(wallets, config));
    lemma_index_in(ids, config.wallet_id@);
    assert forall|i: int, j: int| 0 <= i < j < after.len() implies after[i] != after[j] by {
        match index_in(ids, config.wallet_id@) {
            Some(k) => {
                assert(after[i] == ids[i]);
                assert(after[j] == ids[j]);
            },
            None => {
                if j < ids.len() {
                    assert(after[i] == ids[i]);
                    assert(after[j] == ids[j]);
                } else {
                    assert(after[i] == ids[i]);
                }
            },
        }
    }
}

/// Putting metrics into a list without repeated wallets leaves no wallet
/// repeated.
pub proof fn lemma_metrics_upserted_distinct(list: Seq<WalletMetrics>, metrics: WalletMetrics)
    requires
        distinct(metrics_ids(list)),
    ensures
        distinct(metrics_ids(metrics_upserted(list, metrics))),
{
    let ids = metrics_ids(list);
    let after = metrics_ids(metrics_upserted(list, metrics));
    lemma_index_in(ids, metrics.wallet_id@);
    assert forall|i: int, j: int| 0 <= i < j < after.len() implies after[i] != after[j] by {
        match index_in(ids, metrics.wallet_id@) {
            Some(k) => {
                assert(after[i] == ids[i]);
                assert(after[j] == ids[j]);
            },
            None => {
                if j < ids.len() {
                    assert(after[i] == ids[i]);
                    assert(after[j] == ids[j]);
                } else {
                    assert(after[i] == ids[i]);
                }
            },
        }
    }
}

/// The balance in millionths that a balance in lamports, which are
/// billionths, comes to, rounded down.
pub fn sol_from_lamports(lamports: u64) -> (r: u64)
    ensures
        r == lamports / 1000,
{
    lamports / 1000
}

/// The metrics of a wallet once its balance was found to be `sol_balance`
/// at the price `price`, as of `now`: the total value is the balance at
/// that price, held to 64 bits.
pub open spec fn rebalanced(metrics: WalletMetrics, sol_balance: u64, price: u64, now: i64)
    -> WalletMetrics {
    let value = crate::fixed::scaled_product(sol_balance as int, price as int);
    WalletMetrics {
        sol_balance,
        total_value_usd: if value > u64::MAX {
            u64::MAX
        } else {
            value as u64
        },
        updated_at: now,
        ..metrics
    }
}

/// Whether `metrics` are the metrics of the wallet `id` as they are when
/// the wallet is registered at `at`: nothing held, nothing traded.
pub open spec fn is_fresh_metrics(metrics: WalletMetrics, id: Seq<char>, at: i64) -> bool {
    &&& metrics.wallet_id@ == id
    &&& metrics.token_balances@.len() == 0
    &&& metrics.numbers() == (MetricsSnapshot {
        sol_balance: 0,
        total_value_usd: 0,
        daily_pnl: 0,
        total_pnl: 0,
        trade_count_today: 0,
        last_trade_time: None,
        risk_utilization: 0,
        performance_score: 0,
        updated_at: at,
    })
}

/// The identifiers of a list of newly registered wallets.
pub open spec fn opened_ids(entries: Seq<(Seq<char>, i64)>) -> Seq<Seq<char>> {
    Seq::new(entries.len(), |i: int| entries[i].0)
}

/// The wallets for which metrics are opened when the first `n` of
/// `configs` are registered, each with the time at which it was created,
/// in the order of the configurations: those that have no metrics among
/// `ids` and none opened before.
pub open spec fn opened(ids: Seq<Seq<char>>, configs: Seq<WalletConfig>, n: int) -> Seq<
    (Seq<char>, i64),
>
    decreases n,
{
    if n <= 0 {
        Seq::empty()
    } else {
        let earlier = opened(ids, configs, n - 1);
        let id = configs[n - 1].wallet_id@;
        if index_in(ids, id) is Some || index_in(opened_ids(earlier), id) is Some {
            earlier
        } else {
            earlier.push((id, configs[n - 1].created_at))
        }
    }
}

/// Whether `after` are the metrics `before`, each as it was, with fresh
/// metrics for the wallets `entries` behind them, in their order.
pub open spec fn extends_with(
    after: Seq<WalletMetrics>,
    before: Seq<WalletMetrics>,
    entries: Seq<(Seq<char>, i64)>,
) -> bool {
    &&& after.len() == before.len() + entries.len()
    &&& forall|k: int| 0 <= k < before.len() ==> #[trigger] after[k] == before[k]
    &&& forall|m: int|
        0 <= m < entries.len() ==> is_fresh_metrics(
            #[trigger] after[before.len() + m],
            entries[m].0,
            entries[m].1,
        )
}

/// An identifier stands in one list behind another exactly if it stands in
/// one of the two.
pub proof fn lemma_index_in_joined(a: Seq<Seq<char>>, b: Seq<Seq<char>>, id: Seq<char>)
    ensures
        index_in(a + b, id) is Some <==> index_in(a, id) is Some || index_in(b, id) is Some,
{
    lemma_index_in(a + b, id);
    lemma_index_in(a, id);
    lemma_index_in(b, id);
    match index_in(a + b, id) {
        Some(i) => {
            if i < a.len() {
                assert((a + b)[i] == a[i]);
            } else {
                assert((a + b)[i] == b[i - a.len()]);
            }
        },
        None => {
            if index_in(a, id) is Some {
                assert((a + b)[index_in(a, id)->0] == a[index_in(a, id)->0]);
            }
            if index_in(b, id) is Some {
                assert((a + b)[a.len() + index_in(b, id)->0] == b[index_in(b, id)->0]);
            }
        },
    }
}

/// The wallets after the first `n` of `configs` were put into `wallets`,
/// one after the other.
pub open spec fn loaded(wallets: Seq<WalletConfig>, configs: Seq<WalletConfig>, n: int) -> Seq<
    WalletConfig,
>
    decreases n,
{
    if n <= 0 {
        wallets
    } else {
        upserted(loaded(wallets, configs, n - 1), configs[n - 1])
    }
}

/// The default wallet after the first `n` of `configs` were loaded: the
/// one there was, or else the first active wallet among them.
pub open spec fn default_after(
    default: Option<Seq<char>>,
    configs: Seq<WalletConfig>,
    n: int,
) -> Option<Seq<char>>
    decreases n,
{
    if n <= 0 {
        default
    } else {
        match default_after(default, configs, n - 1) {
            Some(id) => Some(id),
            None => if configs[n - 1].status == WalletStatus::Active {
                Some(configs[n - 1].wallet_id@)
            } else {
                None
            },
        }
    }
}

/// The number of configurations at the head of `configs` that are all
/// without error.
pub open spec fn valid_prefix(configs: Seq<WalletConfig>) -> int
    decreases configs.len(),
{
    if configs.len() == 0 {
        0
    } else if config_error(configs[0]) is Some {
        0
    } else {
        1 + valid_prefix(configs.drop_first())
    }
}

/// The valid prefix has `n` configurations when the first `n` are without
/// error and either there are no more or the next one has an error.
pub proof fn lemma_valid_prefix(configs: Seq<WalletConfig>, n: int)
    requires
        0 <= n <= configs.len(),
        forall|j: int| 0 <= j < n ==> config_error(configs[j]) is None,
        n < configs.len() ==> config_error(configs[n]) is Some,
    ensures
        valid_prefix(configs) == n,
    decreases n,
{
    if n > 0 {
        assert(config_error(configs[0]) is None);
        assert forall|j: int| 0 <= j < n - 1 implies config_error(configs.drop_first()[j])
            is None by {
            assert(configs.drop_first()[j] == configs[j + 1]);
        }
        if n < configs.len() {
            assert(configs.drop_first()[n - 1] == configs[n]);
        }
        lemma_valid_prefix(configs.drop_first(), n - 1);
    }
}

/// The registry of wallets with their metrics and open positions.
#[derive(Debug)]
pub struct WalletManager {
    pub wallets: Vec<WalletConfig>,
    pub wallet_metrics: Vec<WalletMetrics>,
    pub active_positions: Vec<Position>,
    pub default_wallet_id: Option<String>,
}

impl WalletManager {
    /// The registry is well formed when no two wallets have one identifier,
    /// no wallet has two sets of metrics, and the numbers of every wallet
    /// are within bounds.
    pub open spec fn well_formed(&self) -> bool {
        &&& distinct(wallet_ids(self.wallets@))
        &&& distinct(metrics_ids(self.wallet_metrics@))
        &&& forall|i: int| 0 <= i < self.wallets@.len() ==> within_bounds(#[trigger] self.wallets@[i])
    }

    /// The position of the wallet `id` in the registry, if it is there.
    pub open spec fn position(&self, id: Seq<char>) -> Option<int> {
        index_in(wallet_ids(self.wallets@), id)
    }

    /// The position of the metrics of the wallet `id`, if it has any.
    pub open spec fn metrics_position(&self, id: Seq<char>) -> Option<int> {
        index_in(metrics_ids(self.wallet_metrics@), id)
    }

    /// The metrics of the wallet `id`, if it has any.
    pub open spec fn metrics_of(&self, id: Seq<char>) -> Option<WalletMetrics> {
        match self.metrics_position(id) {
            Some(i) => Some(self.wallet_metrics@[i]),
            None => None,
        }
    }

    /// The identifier of the default wallet, if there is one.
    pub open spec fn default_id(&self) -> Option<Seq<char>> {
        match self.default_wallet_id {
            Some(id) => Some(id@),
            None => None,
        }
    }

    /// An empty registry.
    pub fn new() -> (r: Self)
        ensures
            r.wallets@.len() == 0,
            r.wallet_metrics@.len() == 0,
            r.active_positions@.len() == 0,
            r.default_wallet_id is None,
            r.well_formed(),
    {
        WalletManager {
            wallets: Vec::new(),
            wallet_metrics: Vec::new(),
            active_positions: Vec::new(),
            default_wallet_id: None,
        }
    }

    /// The position of the wallet `wallet_id` in the registry.
    pub fn find_wallet(&self, wallet_id: &str) -> (r: Option<usize>)
        ensures
            match r {
                Some(i) => self.position(wallet_id@) == Some(i as int) && i < self.wallets@.len()
                    && self.wallets@[i as int].wallet_id@ == wallet_id@,
                None => self.position(wallet_id@) is None,
            },
    {
        let mut i: usize = 0;
        let ghost ids = wallet_ids(self.wallets@);
        while i < self.wallets.len()
            invariant
                i <= self.wallets@.len(),
                ids == wallet_ids(self.wallets@),
                forall|j: int| 0 <= j < i ==> ids[j] != wallet_id@,
            decreases self.wallets.len() - i,
        {
            if crate::text::same_text(self.wallets[i].wallet_id.as_str(), wallet_id) {
                proof {
                    lemma_index_in_is(ids, wallet_id@, i as int);
                }
                return Some(i);
            }
            i += 1;
        }
        proof {
            lemma_index_in(ids, wallet_id@);
        }
        None
    }

    /// The position of the metrics of the wallet `wallet_id`.
    pub fn find_metrics(&self, wallet_id: &str) -> (r: Option<usize>)
        ensures
            match r {
                Some(i) => self.metrics_position(wallet_id@) == Some(i as int) && i
                    < self.wallet_metrics@.len() && self.wallet_metrics@[i as int].wallet_id@
                    == wallet_id@,
                None => self.metrics_position(wallet_id@) is None,
            },
    {
        let mut i: usize = 0;
        let ghost ids = metrics_ids(self.wallet_metrics@);
        while i < self.wallet_metrics.len()
            invariant
                i <= self.wallet_metrics@.len(),
                ids == metrics_ids(self.wallet_metrics@),
                forall|j: int| 0 <= j < i ==> ids[j] != wallet_id@,
            decreases self.wallet_metrics.len() - i,
        {
            if crate::text::same_text(self.wallet_metrics[i].wallet_id.as_str(), wallet_id) {
                proof {
                    lemma_index_in_is(ids, wallet_id@, i as int);
                }
                return Some(i);
            }
            i += 1;
        }
        proof {
            lemma_index_in(ids, wallet_id@);
        }
        None
    }

    /// Puts `config` into the registry without checking it: in the place of
    /// the wallet with the same identifier, or at the end. A wallet that has
    /// no metrics yet gets fresh ones, as of the time at which it was
    /// created.
    pub fn insert_wallet(&mut self, config: WalletConfig)
        requires
            old(self).well_formed(),
            within_bounds(config),
        ensures
            final(self).well_formed(),
            final(self).wallets@ == upserted(old(self).wallets@, config),
            extends_with(
                final(self).wallet_metrics@,
                old(self).wallet_metrics@,
                opened(metrics_ids(old(self).wallet_metrics@), seq![config], 1),
            ),
            final(self).metrics_position(config.wallet_id@) is Some,
            final(self).active_positions == old(self).active_positions,
            final(self).default_wallet_id == old(self).default_wallet_id,
    {
        proof {
            lemma_upserted_distinct(self.wallets@, config);
            reveal_with_fuel(opened, 2);
            assert(opened_ids(Seq::<(Seq<char>, i64)>::empty()) =~= Seq::<Seq<char>>::empty());
            assert(seq![config][0] == config);
        }
        let ghost ids = metrics_ids(self.wallet_metrics@);
        match self.find_metrics(config.wallet_id.as_str()) {
            Some(_) => {},
            None => {
                let fresh = WalletMetrics::empty(config.wallet_id.clone(), config.created_at);
                self.wallet_metrics.push(fresh);
                proof {
                    lemma_index_in(ids, config.wallet_id@);
                    let after = metrics_ids(self.wallet_metrics@);
                    assert(after =~= ids.push(config.wallet_id@));
                    assert forall|i: int, j: int| 0 <= i < j < after.len() implies after[i]
                        != after[j] by {
                        assert(after[i] == ids[i]);
                        if j < ids.len() {
                            assert(after[j] == ids[j]);
                        }
                    }
                    lemma_index_in_is(after, config.wallet_id@, ids.len() as int);
                }
            },
        }
        match self.find_wallet(config.wallet_id.as_str()) {
            Some(i) => {
                self.wallets.set(i, config);
            },
            None => {
                self.wallets.push(config);
            },
        }
    }

    /// Adds a wallet to the registry after checking its configuration. A
    /// wallet with an error is not added. A wallet whose identifier is in the
    /// registry takes the place of the one that was there. A wallet without
    /// metrics gets fresh ones.
    pub fn add_wallet(&mut self, config: WalletConfig) -> (r: Result<(), WalletError>)
        requires
            old(self).well_formed(),
        ensures
            final(self).well_formed(),
            final(self).active_positions == old(self).active_positions,
            final(self).default_wallet_id == old(self).default_wallet_id,
            match config_error(config) {
                Some(e) => r == Err::<(), WalletError>(e) && final(self).wallets == old(self).wallets
                    && final(self).wallet_metrics == old(self).wallet_metrics,
                None => r is Ok && final(self).wallets@ == upserted(old(self).wallets@, config)
                    && extends_with(
                    final(self).wallet_metrics@,
                    old(self).wallet_metrics@,
                    opened(metrics_ids(old(self).wallet_metrics@), seq![config], 1),
                ) && final(self).metrics_position(config.wallet_id@) is Some,
            },
    {
        match validate_wallet_config(&config) {
            Err(e) => Err(e),
            Ok(()) => {
                self.insert_wallet(config);
                Ok(())
            },
        }
    }

    /// Loads `wallet_configs` into the registry, one after the other, each
    /// after checking it. Loading stops at the first configuration with an
    /// error, which is returned; those before it stay loaded. The first
    /// active wallet that is loaded becomes the default wallet unless there
    /// is one already. Every wallet that is loaded and has no metrics yet
    /// gets fresh ones.
    pub fn initialize(&mut self, wallet_configs: Vec<WalletConfig>) -> (r: Result<
        (),
        WalletError,
    >)
        requires
            old(self).well_formed(),
        ensures
            final(self).well_formed(),
            final(self).active_positions == old(self).active_positions,
            final(self).wallets@ == loaded(
                old(self).wallets@,
                wallet_configs@,
                valid_prefix(wallet_configs@),
            ),
            extends_with(
                final(self).wallet_metrics@,
                old(self).wallet_metrics@,
                opened(
                    metrics_ids(old(self).wallet_metrics@),
                    wallet_configs@,
                    valid_prefix(wallet_configs@),
                ),
            ),
            final(self).default_id() == default_after(
                old(self).default_id(),
                wallet_configs@,
                valid_prefix(wallet_configs@),
            ),
            valid_prefix(wallet_configs@) == wallet_configs@.len() ==> r is Ok,
            valid_prefix(wallet_configs@) < wallet_configs@.len() ==> r == Err::<(), WalletError>(
                config_error(wallet_configs@[valid_prefix(wallet_configs@)])->0,
            ),
    {
        let ghost all = wallet_configs@;
        let ghost total = all.len();
        let ghost ids = metrics_ids(self.wallet_metrics@);
        for config in it: wallet_configs
            invariant
                it.seq() == all,
                total == all.len(),
                self.well_formed(),
                ids == metrics_ids(old(self).wallet_metrics@),
                extends_with(
                    self.wallet_metrics@,
                    old(self).wallet_metrics@,
                    opened(ids, all, it.index() as int),
                ),
                self.active_positions == old(self).active_positions,
                self.wallets@ == loaded(old(self).wallets@, all, it.index() as int),
                self.default_id() == default_after(old(self).default_id(), all, it.index() as int),
                forall|j: int| 0 <= j < it.index() ==> config_error(all[j]) is None,
        {
            assert(config == all[it.index() as int]);
            match validate_wallet_config(&config) {
                Err(e) => {
                    proof {
                        lemma_valid_prefix(all, it.index() as int);
                    }
                    return Err(e);
                },
                Ok(()) => {},
            }
            if self.default_wallet_id.is_none() && config.status == WalletStatus::Active {
                self.default_wallet_id = Some(config.wallet_id.clone());
            }
            let ghost held = self.wallet_metrics@;
            let ghost earlier = opened(ids, all, it.index() as int);
            self.insert_wallet(config);
            proof {
                let first = old(self).wallet_metrics@;
                reveal_with_fuel(opened, 2);
                assert(opened_ids(Seq::<(Seq<char>, i64)>::empty()) =~= Seq::<Seq<char>>::empty());
                assert(seq![config][0] == config);
                assert(metrics_ids(held) =~= ids + opened_ids(earlier)) by {
                    assert forall|k: int| 0 <= k < held.len() implies metrics_ids(held)[k] == (ids
                        + opened_ids(earlier))[k] by {
                        if k < first.len() {
                            assert(held[k] == first[k]);
                        } else {
                            assert(is_fresh_metrics(
                                held[first.len() + (k - first.len())],
                                earlier[k - first.len()].0,
                                earlier[k - first.len()].1,
                            ));
                        }
                    }
                }
                lemma_index_in_joined(ids, opened_ids(earlier), config.wallet_id@);
                let next = opened(ids, all, it.index() + 1);
                assert forall|k: int| 0 <= k < first.len() implies #[trigger] self.wallet_metrics@[k]
                    == first[k] by {
                    assert(self.wallet_metrics@[k] == held[k]);
                    assert(held[k] == first[k]);
                }
                assert forall|m: int| 0 <= m < next.len() implies is_fresh_metrics(
                    #[trigger] self.wallet_metrics@[first.len() + m],
                    next[m].0,
                    next[m].1,
                ) by {
                    if m < earlier.len() {
                        assert(self.wallet_metrics@[first.len() + m] == held[first.len() + m]);
                        assert(is_fresh_metrics(
                            held[first.len() + m],
                            earlier[m].0,
                            earlier[m].1,
                        ));
                    } else {
                        assert(first.len() + m == held.len() + 0);
                    }
                }
            }
        }
        proof {
            lemma_valid_prefix(all, total as int);
        }
        Ok(())
    }

    /// The wallet `wallet_id` as it is configured.
    pub fn get_wallet(&self, wallet_id: &str) -> (r: Result<WalletConfig, WalletError>)
        ensures
            match self.position(wallet_id@) {
                Some(i) => r matches Ok(config) && config.same_as(self.wallets@[i]),
                None => r matches Err(e) && e == WalletError::WalletNotFound,
            },
    {
        match self.find_wallet(wallet_id) {
            Some(i) => Ok(self.wallets[i].clone()),
            None => Err(WalletError::WalletNotFound),
        }
    }

    /// The metrics of the wallet `wallet_id`: its numbers and the balances
    /// of its tokens.
    pub fn get_wallet_metrics(&self, wallet_id: &str) -> (r: Result<WalletMetrics, WalletError>)
        ensures
            match self.metrics_of(wallet_id@) {
                Some(metrics) => r matches Ok(shown) && shown.same_as(metrics),
                None => r matches Err(e) && e == WalletError::MetricsNotFound,
            },
    {
        match self.find_metrics(wallet_id) {
            Some(i) => Ok(self.wallet_metrics[i].clone()),
            None => Err(WalletError::MetricsNotFound),
        }
    }

    /// Records `metrics` as the metrics of their wallet, in the place of
    /// those that were there.
    pub fn update_wallet_metrics(&mut self, metrics: WalletMetrics)
        requires
            old(self).well_formed(),
        ensures
            final(self).well_formed(),
            final(self).wallet_metrics@ == metrics_upserted(old(self).wallet_metrics@, metrics),
            final(self).wallets == old(self).wallets,
            final(self).active_positions == old(self).active_positions,
            final(self).default_wallet_id == old(self).default_wallet_id,
    {
        proof {
            lemma_metrics_upserted_distinct(self.wallet_metrics@, metrics);
        }
        match self.find_metrics(metrics.wallet_id.as_str()) {
            Some(i) => {
                self.wallet_metrics.set(i, metrics);
            },
            None => {
                self.wallet_metrics.push(metrics);
            },
        }
    }

    /// Records the balance `sol_balance` of the wallet `wallet_id` at the
    /// price `price`, as of `now`: the total value of the wallet is the
    /// balance at that price, held to 64 bits. A wallet without metrics is
    /// left alone, and the result says so.
    pub fn refresh_balance(&mut self, wallet_id: &str, sol_balance: u64, price: u64, now: i64) -> (r:
        bool)
        requires
            old(self).well_formed(),
        ensures
            final(self).well_formed(),
            final(self).wallets == old(self).wallets,
            final(self).active_positions == old(self).active_positions,
            final(self).default_wallet_id == old(self).default_wallet_id,
            match old(self).metrics_position(wallet_id@) {
                Some(m) => r && final(self).wallet_metrics@ == old(self).wallet_metrics@.update(
                    m,
                    rebalanced(old(self).wallet_metrics@[m], sol_balance, price, now),
                ),
                None => !r && final(self).wallet_metrics == old(self).wallet_metrics,
            },
    {
        match self.find_metrics(wallet_id) {
            Some(m) => {
                let value: u128 = crate::fixed::wide_scaled_product(sol_balance, price);
                let total: u64 = if value > u64::MAX as u128 {
                    u64::MAX
                } else {
                    value as u64
                };
                let ghost before = self.wallet_metrics@;
                self.wallet_metrics[m].sol_balance = sol_balance;
                self.wallet_metrics[m].total_value_usd = total;
                self.wallet_metrics[m].updated_at = now;
                proof {
                    assert(self.wallet_metrics@ =~= before.update(
                        m as int,
                        rebalanced(before[m as int], sol_balance, price, now),
                    ));
                    assert(metrics_ids(self.wallet_metrics@) =~= metrics_ids(before));
                }
                true
            },
            None => false,
        }
    }

    /// The key pair of the wallet `wallet_id`, for signing.
    pub fn get_wallet_keypair(&self, wallet_id: &str) -> (r: Result<
        solana_sdk::signature::Keypair,
        WalletError,
    >)
        ensures
            match self.position(wallet_id@) {
                Some(i) => match key_material(self.wallets@[i].private_key@) {
                    Ok(bytes) => r matches Ok(keypair) && keypair_bytes(keypair) == bytes,
                    Err(e) => r matches Err(f) && f == WalletError::InvalidPrivateKey(e),
                },
                None => r matches Err(e) && e == WalletError::WalletNotFound,
            },
    {
        match self.find_wallet(wallet_id) {
            Some(i) => match parse_private_key(self.wallets[i].private_key.as_str()) {
                Ok(keypair) => Ok(keypair),
                Err(e) => Err(WalletError::InvalidPrivateKey(e)),
            },
            None => Err(WalletError::WalletNotFound),
        }
    }
}


/// The points that a wallet's type brings to its score: most for a primary
/// wallet, least for an emergency wallet.
pub open spec fn base_score(wallet_type: WalletType) -> int {
    match wallet_type {
        WalletType::Primary => 10_000_000,
        WalletType::HFT => 9_000_000,
        WalletType::Secondary => 8_000_000,
        WalletType::Arbitrage => 7_000_000,
        WalletType::Conservative => 6_000_000,
        WalletType::MEVProtection => 5_000_000,
        WalletType::Experimental => 4_000_000,
        WalletType::Emergency => 1_000_000,
    }
}

/// The points that a wallet's allocation to `strategy` brings to its score:
/// a tenth of the percentage of its first enabled allocation to it.
pub open spec fn allocation_points(list: Seq<StrategyAllocation>, strategy: StrategyType) -> int
    decreases list.len(),
{
    if list.len() == 0 {
        0
    } else if list[0].strategy_type == strategy && list[0].enabled {
        list[0].allocation_percentage as int / 10
    } else {
        allocation_points(list.drop_first(), strategy)
    }
}

/// The points that a risk utilization brings to a score: a twentieth of
/// what is left to 100%, negative where the utilization is above 100%.
pub open spec fn utilization_points(risk_utilization: u64) -> int {
    if risk_utilization <= HUNDRED_PERCENT {
        (HUNDRED_PERCENT - risk_utilization) / 20
    } else {
        -((risk_utilization - HUNDRED_PERCENT) / 20)
    }
}

/// The points that a wallet's metrics bring to its score: five for a
/// balance that covers the required one, the performance score up to five,
/// and the utilization points.
pub open spec fn metrics_points(metrics: WalletMetrics, required_balance: u64) -> int {
    (if metrics.sol_balance >= required_balance {
        5_000_000int
    } else {
        0
    }) + (if metrics.performance_score < 5_000_000 {
        metrics.performance_score as int
    } else {
        5_000_000
    }) + utilization_points(metrics.risk_utilization)
}

/// The score of a wallet for a trade.
pub open spec fn wallet_score(
    config: WalletConfig,
    metrics: Option<WalletMetrics>,
    criteria: WalletSelectionCriteria,
) -> int {
    base_score(config.wallet_type) + allocation_points(
        config.strategy_allocation@,
        criteria.strategy_type,
    ) + match metrics {
        Some(m) => metrics_points(m, criteria.required_balance),
        None => 0,
    }
}

/// The largest value that a wallet may have at risk: its exposure
/// percentage of its total value.
pub open spec fn max_risk(config: WalletConfig, metrics: WalletMetrics) -> int {
    (metrics.total_value_usd as int * config.risk_limits.max_exposure_percentage as int) / (
    HUNDRED_PERCENT as int)
}

/// The value that a wallet may still put at risk: the largest value at
/// risk less the share of it that is utilized; nothing without metrics.
pub open spec fn risk_capacity(config: WalletConfig, metrics: Option<WalletMetrics>) -> int {
    match metrics {
        Some(m) => max_risk(config, m) - (max_risk(config, m) * m.risk_utilization as int) / (
        HUNDRED_PERCENT as int),
        None => 0,
    }
}

/// Whether `id` is among `list`.
pub open spec fn listed(list: Seq<String>, id: Seq<char>) -> bool {
    exists|i: int| 0 <= i < list.len() && (#[trigger] list[i])@ == id
}

/// Whether a wallet may carry a trade: it is active, has an enabled
/// allocation to the trade's strategy, may hold a position of the trade's
/// size, is of the preferred type where one is given, and is not excluded.
pub open spec fn eligible(config: WalletConfig, criteria: WalletSelectionCriteria) -> bool {
    &&& config.status == WalletStatus::Active
    &&& config.serves(criteria.strategy_type)
    &&& criteria.position_size <= config.risk_limits.max_position_size
    &&& !listed(criteria.exclude_wallets@, config.wallet_id@)
    &&& (criteria.preferred_wallet_type matches Some(t) ==> config.wallet_type == t)
}

/// What decides between two wallets: the score, then the risk utilization,
/// then the identifier.
pub struct Rank {
    pub score: int,
    pub utilization: int,
    pub id: Seq<char>,
}

/// Whether `a` is to be preferred to `b`: for its higher score; at equal
/// scores for its lower risk utilization; at equal utilization for its
/// identifier, which comes first.
pub open spec fn outranks(a: Rank, b: Rank) -> bool {
    a.score > b.score || (a.score == b.score && (a.utilization < b.utilization || (a.utilization
        == b.utilization && lex_less(a.id, b.id))))
}

/// Preference is transitive.
pub proof fn lemma_outranks_transitive(a: Rank, b: Rank, c: Rank)
    requires
        outranks(a, b),
        outranks(b, c),
    ensures
        outranks(a, c),
{
    if a.score == b.score && b.score == c.score && a.utilization == b.utilization && b.utilization
        == c.utilization {
        crate::text::lemma_lex_transitive(a.id, b.id, c.id);
    }
}

/// Of two wallets with different identifiers exactly one is preferred.
pub proof fn lemma_outranks_total(a: Rank, b: Rank)
    requires
        a.id != b.id,
    ensures
        outranks(a, b) <==> !outranks(b, a),
{
    crate::text::lemma_lex_total(a.id, b.id);
}

impl WalletManager {
    /// What decides for or against the wallet at position `i` for a trade.
    pub open spec fn rank(&self, i: int, criteria: WalletSelectionCriteria) -> Rank {
        let config = self.wallets@[i];
        let metrics = self.metrics_of(config.wallet_id@);
        Rank {
            score: wallet_score(config, metrics, criteria),
            utilization: match metrics {
                Some(m) => m.risk_utilization as int,
                None => 0,
            },
            id: config.wallet_id@,
        }
    }

    /// Whether the wallet at position `i` is the one to carry the trade: it
    /// is eligible and preferred to every other eligible wallet.
    pub open spec fn is_best(&self, i: int, criteria: WalletSelectionCriteria) -> bool {
        &&& 0 <= i < self.wallets@.len()
        &&& eligible(self.wallets@[i], criteria)
        &&& forall|j: int|
            0 <= j < self.wallets@.len() && j != i && eligible(#[trigger] self.wallets@[j], criteria)
                ==> outranks(self.rank(i, criteria), self.rank(j, criteria))
    }

    /// Whether no wallet may carry the trade.
    pub open spec fn none_eligible(&self, criteria: WalletSelectionCriteria) -> bool {
        forall|j: int|
            0 <= j < self.wallets@.len() ==> !eligible(#[trigger] self.wallets@[j], criteria)
    }
}

/// Whether `list` has an enabled allocation to `strategy`.
pub fn has_enabled_allocation(list: &Vec<StrategyAllocation>, strategy: StrategyType) -> (r: bool)
    ensures
        r == exists|i: int|
            0 <= i < list@.len() && (#[trigger] list@[i]).strategy_type == strategy
                && list@[i].enabled,
{
    let mut i: usize = 0;
    while i < list.len()
        invariant
            i <= list.len(),
            forall|j: int|
                0 <= j < i ==> !((#[trigger] list@[j]).strategy_type == strategy
                    && list@[j].enabled),
        decreases list.len() - i,
    {
        if list[i].strategy_type == strategy && list[i].enabled {
            return true;
        }
        i += 1;
    }
    false
}

/// Whether `id` is among `list`.
pub fn is_listed(list: &Vec<String>, id: &str) -> (r: bool)
    ensures
        r == listed(list@, id@),
{
    let mut i: usize = 0;
    while i < list.len()
        invariant
            i <= list.len(),
            forall|j: int| 0 <= j < i ==> (#[trigger] list@[j])@ != id@,
        decreases list.len() - i,
    {
        if crate::text::same_text(list[i].as_str(), id) {
            return true;
        }
        i += 1;
    }
    false
}

/// Whether the wallet `config` may carry the trade that `criteria`
/// describes.
pub fn is_eligible(config: &WalletConfig, criteria: &WalletSelectionCriteria) -> (r: bool)
    ensures
        r == eligible(*config, *criteria),
{
    if config.status != WalletStatus::Active {
        return false;
    }
    if !has_enabled_allocation(&config.strategy_allocation, criteria.strategy_type) {
        return false;
    }
    if criteria.position_size > config.risk_limits.max_position_size {
        return false;
    }
    if is_listed(&criteria.exclude_wallets, config.wallet_id.as_str()) {
        return false;
    }
    match criteria.preferred_wallet_type {
        Some(t) => config.wallet_type == t,
        None => true,
    }
}

/// The points of the first enabled allocation of `list` to `strategy`.
pub fn allocation_points_of(list: &Vec<StrategyAllocation>, strategy: StrategyType) -> (r: u64)
    ensures
        r as int == allocation_points(list@, strategy),
{
    let mut i: usize = 0;
    proof {
        assert(list@.skip(0) =~= list@);
    }
    while i < list.len()
        invariant
            i <= list.len(),
            allocation_points(list@, strategy) == allocation_points(list@.skip(i as int), strategy),
        decreases list.len() - i,
    {
        proof {
            assert(list@.skip(i as int)[0] == list@[i as int]);
            assert(list@.skip(i as int).drop_first() =~= list@.skip(i + 1));
        }
        if list[i].strategy_type == strategy && list[i].enabled {
            return list[i].allocation_percentage / 10;
        }
        i += 1;
    }
    0
}

/// The points that a wallet's type brings to its score.
pub fn base_score_of(wallet_type: WalletType) -> (r: i128)
    ensures
        r as int == base_score(wallet_type),
{
    match wallet_type {
        WalletType::Primary => 10_000_000,
        WalletType::HFT => 9_000_000,
        WalletType::Secondary => 8_000_000,
        WalletType::Arbitrage => 7_000_000,
        WalletType::Conservative => 6_000_000,
        WalletType::MEVProtection => 5_000_000,
        WalletType::Experimental => 4_000_000,
        WalletType::Emergency => 1_000_000,
    }
}

impl WalletManager {
    /// The score of the wallet `wallet_config` with the metrics
    /// `wallet_metrics` for the trade that `criteria` describes.
    pub fn calculate_wallet_score(
        &self,
        wallet_config: &WalletConfig,
        wallet_metrics: Option<&WalletMetrics>,
        criteria: &WalletSelectionCriteria,
    ) -> (r: i128)
        ensures
            r as int == wallet_score(
                *wallet_config,
                match wallet_metrics {
                    Some(m) => Some(*m),
                    None => None,
                },
                *criteria,
            ),
    {
        let mut score: i128 = base_score_of(wallet_config.wallet_type);
        score = score + allocation_points_of(
            &wallet_config.strategy_allocation,
            criteria.strategy_type,
        ) as i128;
        match wallet_metrics {
            Some(metrics) => {
                if metrics.sol_balance >= criteria.required_balance {
                    score = score + 5_000_000;
                }
                if metrics.performance_score < 5_000_000 {
                    score = score + metrics.performance_score as i128;
                } else {
                    score = score + 5_000_000;
                }
                if metrics.risk_utilization <= HUNDRED_PERCENT {
                    score = score + ((HUNDRED_PERCENT - metrics.risk_utilization) / 20) as i128;
                } else {
                    score = score - ((metrics.risk_utilization - HUNDRED_PERCENT) / 20) as i128;
                }
            },
            None => {},
        }
        score
    }

    /// The value that the wallet `config` with the metrics `metrics` may
    /// still put at risk.
    pub fn calculate_risk_capacity(
        &self,
        config: &WalletConfig,
        metrics: Option<&WalletMetrics>,
    ) -> (r: i128)
        requires
            config.risk_limits.max_exposure_percentage <= HUNDRED_PERCENT,
        ensures
            r as int == risk_capacity(
                *config,
                match metrics {
                    Some(m) => Some(*m),
                    None => None,
                },
            ),
    {
        match metrics {
            Some(m) => {
                let value = m.total_value_usd;
                let percentage = config.risk_limits.max_exposure_percentage;
                proof {
                    lemma_product_fits(value, percentage);
                    assert((value as int * percentage as int) / (HUNDRED_PERCENT as int)
                        <= value as int) by (nonlinear_arith)
                        requires
                            0 <= value,
                            0 <= percentage <= HUNDRED_PERCENT,
                            HUNDRED_PERCENT == 100_000_000,
                    ;
                    assert(0 <= (value as int * percentage as int) / (HUNDRED_PERCENT as int))
                        by (nonlinear_arith)
                        requires
                            0 <= value,
                            0 <= percentage,
                            HUNDRED_PERCENT == 100_000_000,
                    ;
                }
                let largest: u128 = (value as u128) * (percentage as u128) / (
                HUNDRED_PERCENT as u128);
                proof {
                    lemma_product_fits(largest as u64, m.risk_utilization);
                    assert(0 <= (largest as int * m.risk_utilization as int) / (
                    HUNDRED_PERCENT as int) <= largest as int * m.risk_utilization as int)
                        by (nonlinear_arith)
                        requires
                            0 <= largest as int * m.risk_utilization as int,
                            HUNDRED_PERCENT == 100_000_000,
                    ;
                }
                let used: u128 = largest * (m.risk_utilization as u128) / (HUNDRED_PERCENT as u128);
                largest as i128 - used as i128
            },
            None => 0,
        }
    }

    /// Picks the wallet to carry a trade: among the wallets that are
    /// eligible, the one with the highest score; among those, the one with
    /// the lowest risk utilization; among those, the one whose identifier
    /// comes first. Without an eligible wallet there is none suitable.
    pub fn select_wallet(&self, criteria: &WalletSelectionCriteria) -> (r: Result<
        WalletSelection,
        WalletError,
    >)
        requires
            self.well_formed(),
        ensures
            match r {
                Ok(selection) => exists|i: int|
                    {
                        &&& #[trigger] self.is_best(i, *criteria)
                        &&& selection.wallet_id@ == self.wallets@[i].wallet_id@
                        &&& selection.wallet_config.same_as(self.wallets@[i])
                        &&& selection.selection_score as int == self.rank(i, *criteria).score
                        &&& selection.available_balance == match self.metrics_of(
                            self.wallets@[i].wallet_id@,
                        ) {
                            Some(m) => m.sol_balance,
                            None => 0,
                        }
                        &&& selection.risk_capacity as int == risk_capacity(
                            self.wallets@[i],
                            self.metrics_of(self.wallets@[i].wallet_id@),
                        )
                        &&& selection.selection_reason@ == "Best score"@
                    },
                Err(e) => e == WalletError::NoSuitableWallet && self.none_eligible(*criteria),
            },
            r matches Ok(selection) ==> selection.wallet_config.status == WalletStatus::Active
                && selection.wallet_config.serves(criteria.strategy_type)
                && criteria.position_size <= selection.wallet_config.risk_limits.max_position_size,
    {
        let mut best: Option<usize> = None;
        let mut best_score: i128 = 0;
        let mut best_utilization: u64 = 0;
        let mut i: usize = 0;
        while i < self.wallets.len()
            invariant
                i <= self.wallets@.len(),
                self.well_formed(),
                match best {
                    Some(b) => {
                        &&& b < i
                        &&& eligible(self.wallets@[b as int], *criteria)
                        &&& best_score as int == self.rank(b as int, *criteria).score
                        &&& best_utilization as int == self.rank(b as int, *criteria).utilization
                        &&& forall|j: int|
                            0 <= j < i && j != b && eligible(#[trigger] self.wallets@[j], *criteria)
                                ==> outranks(
                                self.rank(b as int, *criteria),
                                self.rank(j, *criteria),
                            )
                    },
                    None => forall|j: int|
                        0 <= j < i ==> !eligible(#[trigger] self.wallets@[j], *criteria),
                },
            decreases self.wallets.len() - i,
        {
            let config = &self.wallets[i];
            if is_eligible(config, criteria) {
                let metrics_at = self.find_metrics(config.wallet_id.as_str());
                let (score, utilization) = match metrics_at {
                    Some(m) => (
                        self.calculate_wallet_score(config, Some(&self.wallet_metrics[m]), criteria),
                        self.wallet_metrics[m].risk_utilization,
                    ),
                    None => (self.calculate_wallet_score(config, None, criteria), 0),
                };
                assert(score as int == self.rank(i as int, *criteria).score);
                assert(utilization as int == self.rank(i as int, *criteria).utilization);
                match best {
                    None => {
                        best = Some(i);
                        best_score = score;
                        best_utilization = utilization;
                    },
                    Some(b) => {
                        let wins = score > best_score || (score == best_score && (utilization
                            < best_utilization || (utilization == best_utilization && text_less(
                            config.wallet_id.as_str(),
                            self.wallets[b].wallet_id.as_str(),
                        ))));
                        let ghost mine = self.rank(i as int, *criteria);
                        let ghost theirs = self.rank(b as int, *criteria);
                        assert(wins == outranks(mine, theirs));
                        proof {
                            assert(wallet_ids(self.wallets@)[i as int] != wallet_ids(
                                self.wallets@,
                            )[b as int]);
                            lemma_outranks_total(mine, theirs);
                        }
                        if wins {
                            proof {
                                assert forall|j: int|
                                    0 <= j < i + 1 && j != i && eligible(
                                        #[trigger] self.wallets@[j],
                                        *criteria,
                                    ) implies outranks(mine, self.rank(j, *criteria)) by {
                                    if j != b {
                                        lemma_outranks_transitive(
                                            mine,
                                            theirs,
                                            self.rank(j, *criteria),
                                        );
                                    }
                                }
                            }
                            best = Some(i);
                            best_score = score;
                            best_utilization = utilization;
                        }
                    },
                }
            }
            i += 1;
        }
        match best {
            None => Err(WalletError::NoSuitableWallet),
            Some(b) => {
                let config = &self.wallets[b];
                let metrics_at = self.find_metrics(config.wallet_id.as_str());
                let (available_balance, risk_capacity) = match metrics_at {
                    Some(m) => (
                        self.wallet_metrics[m].sol_balance,
                        self.calculate_risk_capacity(config, Some(&self.wallet_metrics[m])),
                    ),
                    None => (0, self.calculate_risk_capacity(config, None)),
                };
                assert(self.is_best(b as int, *criteria));
                Ok(
                    WalletSelection {
                        wallet_id: config.wallet_id.clone(),
                        wallet_config: config.clone(),
                        available_balance,
                        risk_capacity,
                        selection_score: best_score,
                        selection_reason: String::from_str("Best score"),
                    },
                )
            },
        }
    }
}


/// For each wallet, whether it is active.
pub open spec fn active_flags(wallets: Seq<WalletConfig>) -> Seq<bool> {
    Seq::new(wallets.len(), |i: int| wallets[i].status == WalletStatus::Active)
}

/// For each wallet, whether it has an enabled allocation to `strategy`.
pub open spec fn serving_flags(wallets: Seq<WalletConfig>, strategy: StrategyType) -> Seq<bool> {
    Seq::new(wallets.len(), |i: int| wallets[i].serves(strategy))
}

/// The status of a wallet after an emergency stop: an active wallet is in
/// emergency mode, any other keeps its status.
pub open spec fn stopped_status(status: WalletStatus) -> WalletStatus {
    if status == WalletStatus::Active {
        WalletStatus::Emergency
    } else {
        status
    }
}

/// The identifiers of the wallets with an enabled allocation to
/// `strategy`, in their order.
pub fn serving_ids(wallets: &Vec<WalletConfig>, strategy: StrategyType) -> (r: Vec<String>)
    ensures
        r@.len() == picked(
            serving_flags(wallets@, strategy),
            wallets@.len() as int,
        ).len(),
        forall|k: int|
            0 <= k < r@.len() ==> (#[trigger] r@[k])@ == wallets@[picked(
                serving_flags(wallets@, strategy),
                wallets@.len() as int,
            )[k]].wallet_id@,
{
    let mut r: Vec<String> = Vec::new();
    let mut i: usize = 0;
    let ghost flags = serving_flags(wallets@, strategy);
    while i < wallets.len()
        invariant
            i <= wallets@.len(),
            flags == serving_flags(wallets@, strategy),
            r@.len() == picked(flags, i as int).len(),
            forall|k: int|
                0 <= k < r@.len() ==> 0 <= #[trigger] picked(flags, i as int)[k] < i,
            forall|k: int|
                0 <= k < r@.len() ==> (#[trigger] r@[k])@ == wallets@[picked(
                    flags,
                    i as int,
                )[k]].wallet_id@,
        decreases wallets.len() - i,
    {
        let ghost before = picked(flags, i as int);
        let ghost earlier = r@;
        assert(flags[i as int] == wallets@[i as int].serves(strategy));
        if has_enabled_allocation(&wallets[i].strategy_allocation, strategy) {
            r.push(wallets[i].wallet_id.clone());
        }
        i += 1;
        proof {
            assert forall|k: int| 0 <= k < r@.len() implies 0 <= #[trigger] picked(
                flags,
                i as int,
            )[k] < i && r@[k]@ == wallets@[picked(flags, i as int)[k]].wallet_id@ by {
                if k < earlier.len() {
                    assert(r@[k] == earlier[k]);
                    assert(picked(flags, i as int)[k] == before[k]);
                }
            }
        }
    }
    r
}


impl WalletManager {
    /// The active wallets, in the order of the registry.
    pub fn get_active_wallets(&self) -> (r: Vec<WalletConfig>)
        ensures
            r@.len() == picked(active_flags(self.wallets@), self.wallets@.len() as int).len(),
            forall|k: int|
                0 <= k < r@.len() ==> (#[trigger] r@[k]).same_as(
                    self.wallets@[picked(
                        active_flags(self.wallets@),
                        self.wallets@.len() as int,
                    )[k]],
                ),
    {
        let mut r: Vec<WalletConfig> = Vec::new();
        let mut i: usize = 0;
        let ghost flags = active_flags(self.wallets@);
        while i < self.wallets.len()
            invariant
                i <= self.wallets@.len(),
                flags == active_flags(self.wallets@),
                r@.len() == picked(flags, i as int).len(),
                forall|k: int|
                    0 <= k < r@.len() ==> 0 <= #[trigger] picked(flags, i as int)[k] < i,
                forall|k: int|
                    0 <= k < r@.len() ==> (#[trigger] r@[k]).same_as(
                        self.wallets@[picked(flags, i as int)[k]],
                    ),
            decreases self.wallets.len() - i,
        {
            let ghost before = picked(flags, i as int);
            let ghost earlier = r@;
            assert(flags[i as int] == (self.wallets@[i as int].status == WalletStatus::Active));
            if self.wallets[i].status == WalletStatus::Active {
                r.push(self.wallets[i].clone());
            }
            i += 1;
            proof {
                assert forall|k: int| 0 <= k < r@.len() implies 0 <= #[trigger] picked(
                    flags,
                    i as int,
                )[k] < i && r@[k].same_as(self.wallets@[picked(flags, i as int)[k]]) by {
                    if k < earlier.len() {
                        assert(r@[k] == earlier[k]);
                        assert(picked(flags, i as int)[k] == before[k]);
                    }
                }
            }
        }
        r
    }

    /// The identifiers of the wallets with an enabled allocation to
    /// `strategy`, in the order of the registry.
    pub fn candidates(&self, strategy: StrategyType) -> (r: Vec<String>)
        ensures
            r@.len() == picked(
                serving_flags(self.wallets@, strategy),
                self.wallets@.len() as int,
            ).len(),
            forall|k: int|
                0 <= k < r@.len() ==> (#[trigger] r@[k])@ == self.wallets@[picked(
                    serving_flags(self.wallets@, strategy),
                    self.wallets@.len() as int,
                )[k]].wallet_id@,
    {
        serving_ids(&self.wallets, strategy)
    }

    /// Puts every active wallet into emergency mode.
    pub fn emergency_stop_all(&mut self)
        requires
            old(self).well_formed(),
        ensures
            final(self).well_formed(),
            final(self).wallet_metrics == old(self).wallet_metrics,
            final(self).active_positions == old(self).active_positions,
            final(self).default_wallet_id == old(self).default_wallet_id,
            final(self).wallets@.len() == old(self).wallets@.len(),
            forall|i: int|
                0 <= i < final(self).wallets@.len() ==> #[trigger] final(self).wallets@[i] == old(self).wallets@[i].with_status(stopped_status(old(self).wallets@[i].status)),
    {
        let mut i: usize = 0;
        while i < self.wallets.len()
            invariant
                i <= self.wallets@.len(),
                self.wallet_metrics == old(self).wallet_metrics,
                self.active_positions == old(self).active_positions,
                self.default_wallet_id == old(self).default_wallet_id,
                self.wallets@.len() == old(self).wallets@.len(),
                forall|k: int|
                    0 <= k < i ==> #[trigger] self.wallets@[k] == old(self).wallets@[k].with_status(
                        stopped_status(old(self).wallets@[k].status),
                    ),
                forall|k: int|
                    i <= k < self.wallets@.len() ==> #[trigger] self.wallets@[k] == old(self).wallets@[k],
            decreases self.wallets.len() - i,
        {
            if self.wallets[i].status == WalletStatus::Active {
                self.wallets[i].status = WalletStatus::Emergency;
            }
            i += 1;
        }
        proof {
            assert(wallet_ids(self.wallets@) =~= wallet_ids(old(self).wallets@));
            assert forall|k: int| 0 <= k < self.wallets@.len() implies within_bounds(
                #[trigger] self.wallets@[k],
            ) by {
                assert(within_bounds(old(self).wallets@[k]));
            }
        }
    }

    /// Puts the wallet `wallet_id` back from emergency mode into active
    /// service.
    pub fn reactivate_wallet(&mut self, wallet_id: &str) -> (r: Result<(), WalletError>)
        requires
            old(self).well_formed(),
        ensures
            final(self).well_formed(),
            final(self).wallet_metrics == old(self).wallet_metrics,
            final(self).active_positions == old(self).active_positions,
            final(self).default_wallet_id == old(self).default_wallet_id,
            match old(self).position(wallet_id@) {
                None => r == Err::<(), WalletError>(WalletError::WalletNotFound) && final(self).wallets == old(self).wallets,
                Some(i) => if old(self).wallets@[i].status == WalletStatus::Emergency {
                    r is Ok && final(self).wallets@ == old(self).wallets@.update(
                        i,
                        old(self).wallets@[i].with_status(WalletStatus::Active),
                    )
                } else {
                    r == Err::<(), WalletError>(WalletError::NotInEmergency) && final(self).wallets == old(self).wallets
                },
            },
    {
        match self.find_wallet(wallet_id) {
            None => Err(WalletError::WalletNotFound),
            Some(i) => {
                if self.wallets[i].status == WalletStatus::Emergency {
                    self.wallets[i].status = WalletStatus::Active;
                    proof {
                        assert(self.wallets@ =~= old(self).wallets@.update(
                            i as int,
                            old(self).wallets@[i as int].with_status(WalletStatus::Active),
                        ));
                        assert(wallet_ids(self.wallets@) =~= wallet_ids(old(self).wallets@));
                        assert forall|k: int| 0 <= k < self.wallets@.len() implies within_bounds(
                            #[trigger] self.wallets@[k],
                        ) by {
                            assert(within_bounds(old(self).wallets@[k]));
                        }
                    }
                    Ok(())
                } else {
                    Err(WalletError::NotInEmergency)
                }
            },
        }
    }
}


/// One wallet in the summary of the portfolio. Amounts and the risk
/// utilization are in millionths.
#[derive(Debug)]
pub struct WalletSummary {
    pub wallet_id: String,
    pub name: String,
    pub wallet_type: WalletType,
    pub status: WalletStatus,
    pub sol_balance: u64,
    pub value_usd: u64,
    pub daily_pnl: i64,
    pub risk_utilization: u64,
    pub active_positions: usize,
}

/// The summary of all wallets. Totals and averages are in millionths.
#[derive(Debug)]
pub struct WalletPortfolioSummary {
    pub total_wallets: usize,
    pub active_wallets: usize,
    pub total_value_usd: u128,
    pub total_sol_balance: u128,
    pub daily_pnl: i128,
    pub total_pnl: i128,
    pub risk_utilization: u128,
    pub performance_score: i128,
    pub wallet_breakdown: Vec<WalletSummary>,
}

/// The number of positions among the first `n` that belong to the wallet
/// `id`.
pub open spec fn positions_of(positions: Seq<Position>, id: Seq<char>, n: int) -> int
    decreases n,
{
    if n <= 0 {
        0
    } else {
        positions_of(positions, id, n - 1) + if positions[n - 1].wallet_id@ == id {
            1int
        } else {
            0
        }
    }
}

/// The number of active wallets among the first `n`.
pub open spec fn active_count(wallets: Seq<WalletConfig>, n: int) -> int
    decreases n,
{
    if n <= 0 {
        0
    } else {
        active_count(wallets, n - 1) + if wallets[n - 1].status == WalletStatus::Active {
            1int
        } else {
            0
        }
    }
}

/// An average as the summary gives it: the sum over the number of active
/// wallets, or the sum itself where no wallet is active.
pub open spec fn averaged(sum: int, active: int) -> int {
    if active > 0 {
        sum / active
    } else {
        sum
    }
}

impl WalletManager {
    /// The sum of `pick` over the metrics of the first `n` wallets; a wallet
    /// without metrics adds nothing.
    pub open spec fn summed(&self, n: int, pick: spec_fn(WalletMetrics) -> int) -> int
        decreases n,
    {
        if n <= 0 {
            0
        } else {
            self.summed(n - 1, pick) + match self.metrics_of(self.wallets@[n - 1].wallet_id@) {
                Some(m) => pick(m),
                None => 0,
            }
        }
    }

    /// Whether `summary` is the line of the wallet at position `i`.
    pub open spec fn is_line(&self, summary: WalletSummary, i: int) -> bool {
        let config = self.wallets@[i];
        let metrics = self.metrics_of(config.wallet_id@);
        &&& summary.wallet_id@ == config.wallet_id@
        &&& summary.name@ == config.name@
        &&& summary.wallet_type == config.wallet_type
        &&& summary.status == config.status
        &&& summary.active_positions as int == positions_of(
            self.active_positions@,
            config.wallet_id@,
            self.active_positions@.len() as int,
        )
        &&& match metrics {
            Some(m) => {
                &&& summary.sol_balance == m.sol_balance
                &&& summary.value_usd == m.total_value_usd
                &&& summary.daily_pnl == m.daily_pnl
                &&& summary.risk_utilization == m.risk_utilization
            },
            None => {
                &&& summary.sol_balance == 0
                &&& summary.value_usd == 0
                &&& summary.daily_pnl == 0
                &&& summary.risk_utilization == 0
            },
        }
    }

    /// The number of open positions of the wallet `wallet_id`.
    pub fn count_positions(&self, wallet_id: &str) -> (r: usize)
        ensures
            r as int == positions_of(
                self.active_positions@,
                wallet_id@,
                self.active_positions@.len() as int,
            ),
    {
        let mut count: usize = 0;
        let mut i: usize = 0;
        while i < self.active_positions.len()
            invariant
                i <= self.active_positions@.len(),
                count <= i,
                count as int == positions_of(self.active_positions@, wallet_id@, i as int),
            decreases self.active_positions.len() - i,
        {
            if crate::text::same_text(self.active_positions[i].wallet_id.as_str(), wallet_id) {
                count += 1;
            }
            i += 1;
        }
        count
    }

    /// The summary of the portfolio: the number of wallets and of active
    /// wallets; the totals of value, balance and profit over the wallets'
    /// metrics; the risk utilization and the performance score summed over
    /// the metrics and divided by the number of active wallets; and one line
    /// for each wallet, in the order of the registry.
    pub fn get_portfolio_summary(&self) -> (r: WalletPortfolioSummary)
        ensures
            r.total_wallets == self.wallets@.len(),
            r.active_wallets as int == active_count(self.wallets@, self.wallets@.len() as int),
            r.total_value_usd as int == self.summed(
                self.wallets@.len() as int,
                |m: WalletMetrics| m.total_value_usd as int,
            ),
            r.total_sol_balance as int == self.summed(
                self.wallets@.len() as int,
                |m: WalletMetrics| m.sol_balance as int,
            ),
            r.daily_pnl as int == self.summed(
                self.wallets@.len() as int,
                |m: WalletMetrics| m.daily_pnl as int,
            ),
            r.total_pnl as int == self.summed(
                self.wallets@.len() as int,
                |m: WalletMetrics| m.total_pnl as int,
            ),
            r.risk_utilization as int == averaged(
                self.summed(
                    self.wallets@.len() as int,
                    |m: WalletMetrics| m.risk_utilization as int,
                ),
                r.active_wallets as int,
            ),
            r.performance_score as int == averaged(
                self.summed(
                    self.wallets@.len() as int,
                    |m: WalletMetrics| m.performance_score as int,
                ),
                r.active_wallets as int,
            ),
            r.wallet_breakdown@.len() == self.wallets@.len(),
            forall|i: int|
                0 <= i < self.wallets@.len() ==> self.is_line(#[trigger] r.wallet_breakdown@[i], i),
    {
        let ghost value = |m: WalletMetrics| m.total_value_usd as int;
        let ghost balance = |m: WalletMetrics| m.sol_balance as int;
        let ghost daily = |m: WalletMetrics| m.daily_pnl as int;
        let ghost total = |m: WalletMetrics| m.total_pnl as int;
        let ghost utilization = |m: WalletMetrics| m.risk_utilization as int;
        let ghost performance = |m: WalletMetrics| m.performance_score as int;
        let mut active_wallets: usize = 0;
        let mut total_value_usd: u128 = 0;
        let mut total_sol_balance: u128 = 0;
        let mut daily_pnl: i128 = 0;
        let mut total_pnl: i128 = 0;
        let mut risk_utilization: u128 = 0;
        let mut performance_score: i128 = 0;
        let mut wallet_breakdown: Vec<WalletSummary> = Vec::new();
        let mut i: usize = 0;
        while i < self.wallets.len()
            invariant
                i <= self.wallets@.len(),
                value == |m: WalletMetrics| m.total_value_usd as int,
                balance == |m: WalletMetrics| m.sol_balance as int,
                daily == |m: WalletMetrics| m.daily_pnl as int,
                total == |m: WalletMetrics| m.total_pnl as int,
                utilization == |m: WalletMetrics| m.risk_utilization as int,
                performance == |m: WalletMetrics| m.performance_score as int,
                active_wallets <= i,
                active_wallets as int == active_count(self.wallets@, i as int),
                total_value_usd as int == self.summed(i as int, value),
                total_sol_balance as int == self.summed(i as int, balance),
                daily_pnl as int == self.summed(i as int, daily),
                total_pnl as int == self.summed(i as int, total),
                risk_utilization as int == self.summed(i as int, utilization),
                performance_score as int == self.summed(i as int, performance),
                total_value_usd <= i * u64::MAX,
                total_sol_balance <= i * u64::MAX,
                risk_utilization <= i * u64::MAX,
                -(i * 0x8000_0000_0000_0000) <= daily_pnl <= i * 0x8000_0000_0000_0000,
                -(i * 0x8000_0000_0000_0000) <= total_pnl <= i * 0x8000_0000_0000_0000,
                -(i * 0x8000_0000_0000_0000) <= performance_score <= i * 0x8000_0000_0000_0000,
                wallet_breakdown@.len() == i,
                forall|k: int| 0 <= k < i ==> self.is_line(#[trigger] wallet_breakdown@[k], k),
            decreases self.wallets.len() - i,
        {
            assert((i + 1) * u64::MAX <= usize::MAX * u64::MAX) by (nonlinear_arith)
                requires
                    i + 1 <= usize::MAX,
            ;
            assert((i + 1) * 0x8000_0000_0000_0000 <= usize::MAX * 0x8000_0000_0000_0000)
                by (nonlinear_arith)
                requires
                    i + 1 <= usize::MAX,
            ;
            let config = &self.wallets[i];
            if config.status == WalletStatus::Active {
                active_wallets += 1;
            }
            let positions = self.count_positions(config.wallet_id.as_str());
            let ghost earlier = wallet_breakdown@;
            match self.find_metrics(config.wallet_id.as_str()) {
                Some(at) => {
                    let m = &self.wallet_metrics[at];
                    total_value_usd = total_value_usd + m.total_value_usd as u128;
                    total_sol_balance = total_sol_balance + m.sol_balance as u128;
                    daily_pnl = daily_pnl + m.daily_pnl as i128;
                    total_pnl = total_pnl + m.total_pnl as i128;
                    risk_utilization = risk_utilization + m.risk_utilization as u128;
                    performance_score = performance_score + m.performance_score as i128;
                    wallet_breakdown.push(
                        WalletSummary {
                            wallet_id: config.wallet_id.clone(),
                            name: config.name.clone(),
                            wallet_type: config.wallet_type,
                            status: config.status,
                            sol_balance: m.sol_balance,
                            value_usd: m.total_value_usd,
                            daily_pnl: m.daily_pnl,
                            risk_utilization: m.risk_utilization,
                            active_positions: positions,
                        },
                    );
                },
                None => {
                    wallet_breakdown.push(
                        WalletSummary {
                            wallet_id: config.wallet_id.clone(),
                            name: config.name.clone(),
                            wallet_type: config.wallet_type,
                            status: config.status,
                            sol_balance: 0,
                            value_usd: 0,
                            daily_pnl: 0,
                            risk_utilization: 0,
                            active_positions: positions,
                        },
                    );
                },
            }
            proof {
                assert forall|k: int| 0 <= k < i + 1 implies self.is_line(
                    #[trigger] wallet_breakdown@[k],
                    k,
                ) by {
                    if k < i {
                        assert(wallet_breakdown@[k] == earlier[k]);
                    }
                }
            }
            i += 1;
        }
        if active_wallets > 0 {
            risk_utilization = risk_utilization / (active_wallets as u128);
            performance_score = divide_floor(performance_score, active_wallets);
        }
        WalletPortfolioSummary {
            total_wallets: self.wallets.len(),
            active_wallets,
            total_value_usd,
            total_sol_balance,
            daily_pnl,
            total_pnl,
            risk_utilization,
            performance_score,
            wallet_breakdown,
        }
    }
}

/// The quotient of `sum` by `count`, rounded down.
pub fn divide_floor(sum: i128, count: usize) -> (r: i128)
    requires
        count > 0,
        sum > i128::MIN,
    ensures
        r as int == sum as int / count as int,
{
    let c = count as u128;
    if sum >= 0 {
        ((sum as u128) / c) as i128
    } else {
        // For a negative sum, rounding down is rounding away from zero.
        let back: u128 = (-(sum + 1)) as u128;
        let q: u128 = back / c;
        proof {
            let ci = count as int;
            let k = (back as int) % ci;
            assert(back as int == (back as int / ci) * ci + k) by {
                vstd::arithmetic::div_mod::lemma_fundamental_div_mod(back as int, ci);
            }
            assert(0 <= k < ci) by {
                vstd::arithmetic::div_mod::lemma_mod_bound(back as int, ci);
            }
            assert(sum as int == (-(q as int) - 1) * ci + (ci - 1 - k)) by (nonlinear_arith)
                requires
                    back as int == (q as int) * ci + k,
                    back as int == -(sum as int) - 1,
            ;
            vstd::arithmetic::div_mod::lemma_fundamental_div_mod_converse(
                sum as int,
                ci,
                -(q as int) - 1,
                ci - 1 - k,
            );
        }
        -(q as i128) - 1
    }
}


/// Builds the configuration of a wallet step by step.
#[derive(Debug)]
pub struct WalletConfigBuilder {
    pub config: WalletConfig,
}

impl WalletConfigBuilder {
    /// A builder for a primary, active wallet without allocations and with
    /// the standard limits, created at `now`. Its public key is the address
    /// of the key pair that `private_key` holds; a private key that holds
    /// none is an error.
    pub fn new_at(wallet_id: String, name: String, private_key: String, now: i64) -> (r: Result<
        Self,
        KeyError,
    >)
        ensures
            match key_material(private_key@) {
                Err(e) => r matches Err(f) && f == e,
                Ok(bytes) => {
                    &&& r matches Ok(builder)
                    &&& builder.config.wallet_id == wallet_id
                    &&& builder.config.name == name
                    &&& builder.config.description@.len() == 0
                    &&& builder.config.private_key == private_key
                    &&& builder.config.public_key@ == keypair_address(bytes)
                    &&& builder.config.wallet_type == WalletType::Primary
                    &&& builder.config.strategy_allocation@.len() == 0
                    &&& builder.config.risk_limits == standard_limits()
                    &&& builder.config.status == WalletStatus::Active
                    &&& builder.config.created_at == now
                    &&& builder.config.last_used is None
                },
            },
    {
        let keypair = match parse_private_key(private_key.as_str()) {
            Ok(k) => k,
            Err(e) => {
                return Err(e);
            },
        };
        let public_key = keypair_public_text(&keypair);
        Ok(
            WalletConfigBuilder {
                config: WalletConfig {
                    wallet_id,
                    name,
                    description: String::new(),
                    private_key,
                    public_key,
                    wallet_type: WalletType::Primary,
                    strategy_allocation: Vec::new(),
                    risk_limits: WalletRiskLimits::default(),
                    status: WalletStatus::Active,
                    created_at: now,
                    last_used: None,
                },
            },
        )
    }

    /// A builder as `new_at` gives it, created at the time of the system
    /// clock.
    pub fn new(wallet_id: String, name: String, private_key: String) -> (r: Result<Self, KeyError>)
        ensures
            match key_material(private_key@) {
                Err(e) => r matches Err(f) && f == e,
                Ok(bytes) => {
                    &&& r matches Ok(builder)
                    &&& builder.config.wallet_id == wallet_id
                    &&& builder.config.name == name
                    &&& builder.config.private_key == private_key
                    &&& builder.config.public_key@ == keypair_address(bytes)
                    &&& builder.config.wallet_type == WalletType::Primary
                    &&& builder.config.strategy_allocation@.len() == 0
                    &&& builder.config.risk_limits == standard_limits()
                    &&& builder.config.status == WalletStatus::Active
                    &&& builder.config.last_used is None
                },
            },
    {
        let now = now_millis();
        Self::new_at(wallet_id, name, private_key, now)
    }

    /// Sets the description.
    pub fn description(self, description: String) -> (r: Self)
        ensures
            r.config == (WalletConfig { description, ..self.config }),
    {
        let mut builder = self;
        builder.config.description = description;
        builder
    }

    /// Sets the type of the wallet.
    pub fn wallet_type(self, wallet_type: WalletType) -> (r: Self)
        ensures
            r.config == (WalletConfig { wallet_type, ..self.config }),
    {
        let mut builder = self;
        builder.config.wallet_type = wallet_type;
        builder
    }

    /// Adds an enabled allocation to a strategy, after those that are there.
    pub fn add_strategy_allocation(
        self,
        strategy_type: StrategyType,
        allocation_percentage: u64,
        max_position_size: u64,
    ) -> (r: Self)
        ensures
            r.config.strategy_allocation@ == self.config.strategy_allocation@.push(
                StrategyAllocation {
                    strategy_type,
                    allocation_percentage,
                    max_position_size,
                    enabled: true,
                },
            ),
            r.config.same_as(
                WalletConfig { strategy_allocation: r.config.strategy_allocation, ..self.config },
            ),
    {
        let mut builder = self;
        builder.config.strategy_allocation.push(
            StrategyAllocation {
                strategy_type,
                allocation_percentage,
                max_position_size,
                enabled: true,
            },
        );
        builder
    }

    /// Sets the risk limits.
    pub fn risk_limits(self, risk_limits: WalletRiskLimits) -> (r: Self)
        ensures
            r.config == (WalletConfig { risk_limits, ..self.config }),
    {
        let mut builder = self;
        builder.config.risk_limits = risk_limits;
        builder
    }

    /// Sets the status.
    pub fn status(self, status: WalletStatus) -> (r: Self)
        ensures
            r.config == (WalletConfig { status, ..self.config }),
    {
        let mut builder = self;
        builder.config.status = status;
        builder
    }

    /// The configuration that was built.
    pub fn build(self) -> (r: WalletConfig)
        ensures
            r == self.config,
    {
        self.config
    }
}


/// The wallet that the router picks is active and has the strategy of the
/// trade enabled in its allocations.
pub proof fn lemma_best_wallet_is_active_and_serves(
    manager: WalletManager,
    i: int,
    criteria: WalletSelectionCriteria,
)
    requires
        manager.is_best(i, criteria),
    ensures
        manager.wallets@[i].status == WalletStatus::Active,
        manager.wallets@[i].serves(criteria.strategy_type),
        !listed(criteria.exclude_wallets@, manager.wallets@[i].wallet_id@),
{
}

/// A wallet that is not active is never the one that the router picks,
/// whatever the trade. So a wallet in emergency mode gets no trade until it
/// is put back into service.
pub proof fn lemma_inactive_wallet_is_never_picked(
    manager: WalletManager,
    i: int,
    criteria: WalletSelectionCriteria,
)
    requires
        0 <= i < manager.wallets@.len(),
        manager.wallets@[i].status != WalletStatus::Active,
    ensures
        !manager.is_best(i, criteria),
{
}

/// With every wallet out of active service, the router picks none.
pub proof fn lemma_no_active_wallet_no_pick(manager: WalletManager, criteria: WalletSelectionCriteria)
    requires
        forall|i: int|
            0 <= i < manager.wallets@.len() ==> (#[trigger] manager.wallets@[i]).status
                != WalletStatus::Active,
    ensures
        manager.none_eligible(criteria),
{
}


/// Whether no two wallets of `wallets` have one identifier.
pub fn has_distinct_wallets(wallets: &Vec<WalletConfig>) -> (r: bool)
    ensures
        r == distinct(wallet_ids(wallets@)),
{
    let ghost ids = wallet_ids(wallets@);
    let mut j: usize = 0;
    while j < wallets.len()
        invariant
            j <= wallets@.len(),
            ids == wallet_ids(wallets@),
            forall|a: int, b: int| 0 <= a < b < j ==> ids[a] != ids[b],
        decreases wallets.len() - j,
    {
        let mut i: usize = 0;
        while i < j
            invariant
                i <= j < wallets@.len(),
                ids == wallet_ids(wallets@),
                forall|a: int| 0 <= a < i ==> ids[a] != ids[j as int],
            decreases j - i,
        {
            if crate::text::same_text(wallets[i].wallet_id.as_str(), wallets[j].wallet_id.as_str()) {
                assert(ids[i as int] == ids[j as int]);
                return false;
            }
            i += 1;
        }
        j += 1;
    }
    true
}

/// Whether no two of `metrics` belong to one wallet.
pub fn has_distinct_metrics(metrics: &Vec<WalletMetrics>) -> (r: bool)
    ensures
        r == distinct(metrics_ids(metrics@)),
{
    let ghost ids = metrics_ids(metrics@);
    let mut j: usize = 0;
    while j < metrics.len()
        invariant
            j <= metrics@.len(),
            ids == metrics_ids(metrics@),
            forall|a: int, b: int| 0 <= a < b < j ==> ids[a] != ids[b],
        decreases metrics.len() - j,
    {
        let mut i: usize = 0;
        while i < j
            invariant
                i <= j < metrics@.len(),
                ids == metrics_ids(metrics@),
                forall|a: int| 0 <= a < i ==> ids[a] != ids[j as int],
            decreases j - i,
        {
            if crate::text::same_text(metrics[i].wallet_id.as_str(), metrics[j].wallet_id.as_str()) {
                assert(ids[i as int] == ids[j as int]);
                return false;
            }
            i += 1;
        }
        j += 1;
    }
    true
}

impl WalletManager {
    /// Whether the registry is well formed.
    pub fn is_well_formed(&self) -> (r: bool)
        ensures
            r == self.well_formed(),
    {
        if !has_distinct_wallets(&self.wallets) || !has_distinct_metrics(&self.wallet_metrics) {
            return false;
        }
        let mut i: usize = 0;
        while i < self.wallets.len()
            invariant
                i <= self.wallets@.len(),
                forall|k: int| 0 <= k < i ==> within_bounds(#[trigger] self.wallets@[k]),
            decreases self.wallets.len() - i,
        {
            if !allocation_within_bounds(&self.wallets[i].strategy_allocation)
                || self.wallets[i].risk_limits.max_exposure_percentage > HUNDRED_PERCENT {
                assert(!within_bounds(self.wallets@[i as int]));
                return false;
            }
            i += 1;
        }
        true
    }
}

} // verus!
