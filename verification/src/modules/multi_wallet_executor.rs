//! Execution of approved signals by a fleet of wallets: each signal is
//! routed to a wallet and then executed by it.

use vstd::prelude::*;
use vstd::string::StringExecFns;
use crate::config::TradingMode;
use crate::fixed::{lemma_scaled_product_monotonic, scaled_mul, scaled_product, SCALE};
use crate::modules::envelope::{
    active_at, halt_due, lemma_applied_trade_shows_in_snapshot, loss_breached, shown, Applied,
    EnvelopeState, ReserveRejection,
};
use crate::modules::executor::{
    is_result_in_mode, trade_in_mode, ExecutionResult, ExecutionStatus,
};
use crate::fixed::{saturating_add, saturating_sum};
use crate::modules::hft_engine::{
    ExecutionResult as HFTExecutionResult, HFTConfig, HFTError, OvermindHFTEngine,
};
use crate::modules::risk::ApprovedSignal;
use crate::modules::strategy::StrategyType;
use crate::modules::wallet_manager::{
    eligible, key_material, keypair_bytes, listed, parse_private_key, wallet_ids, KeyError,
    WalletConfig, WalletError, WalletManager, WalletSelectionCriteria, WalletStatus, WalletType,
};
use crate::platform::{new_uuid, now_millis};
use crate::text::{chars_of, find_char, first_index_of, same_text, string_of};

verus! {

/// An approved signal with the wallet that is to carry it.
#[derive(Debug)]
pub struct RoutedSignal {
    pub original_signal: ApprovedSignal,
    pub selected_wallet_id: String,
    pub wallet_selection_reason: String,
    pub routing_timestamp: i64,
}

/// How often a wallet was used.
#[derive(Debug)]
pub struct WalletUsage {
    pub wallet_id: String,
    pub executions: u64,
}

/// How often each wallet was used for a strategy.
#[derive(Debug)]
pub struct StrategyUsage {
    pub strategy_type: StrategyType,
    pub wallet_usage: Vec<WalletUsage>,
}

/// What the executor has done so far.
#[derive(Debug)]
pub struct ExecutionStats {
    pub total_executions: u64,
    pub successful_executions: u64,
    pub failed_executions: u64,
    pub wallet_usage: Vec<WalletUsage>,
    pub strategy_routing: Vec<StrategyUsage>,
}

impl Default for ExecutionStats {
    fn default() -> (r: Self)
        ensures
            r.total_executions == 0,
            r.successful_executions == 0,
            r.failed_executions == 0,
            r.wallet_usage@.len() == 0,
            r.strategy_routing@.len() == 0,
    {
        ExecutionStats {
            total_executions: 0,
            successful_executions: 0,
            failed_executions: 0,
            wallet_usage: Vec::new(),
            strategy_routing: Vec::new(),
        }
    }
}

/// Why a signal was not routed.
#[derive(Debug, Clone, Copy, PartialEq, Eq, Structural)]
pub enum RouteError {
    /// The emergency halt is set.
    Halted,
    /// No wallet can carry the trade, and there is no fallback wallet that
    /// is active.
    NoSuitableWallet,
}

/// Why the signing handle of a routed signal was not handed out.
#[derive(Debug, Clone, Copy, PartialEq, Eq, Structural)]
pub enum HandleError {
    /// The wallet is not in the registry.
    WalletNotFound,
    /// The wallet is no longer active; the signal is to be routed again
    /// without this wallet.
    WalletInactive,
    /// The wallet's private key holds no key pair.
    InvalidPrivateKey(KeyError),
}

/// What is to be done with a prepared signal once the signing handle of its
/// wallet was asked for.
pub enum HandleStep {
    /// The handle to sign with.
    Proceed(solana_sdk::signature::Keypair),
    /// The wallet went out of service since the signal was routed: the
    /// signal is to be routed again, with these wallets left out.
    RouteAgain(Vec<String>),
    /// The signal cannot be executed; this is its one result.
    Fail(ExecutionResult),
}

/// The bytes of the key pair of the wallet `id`, where the wallet is in the
/// registry, is active and has a private key that holds a key pair; else
/// the first of these that fails.
pub open spec fn handle_of(manager: WalletManager, id: Seq<char>) -> Result<Seq<u8>, HandleError> {
    match manager.position(id) {
        None => Err(HandleError::WalletNotFound),
        Some(i) => if manager.wallets@[i].status != WalletStatus::Active {
            Err(HandleError::WalletInactive)
        } else {
            match key_material(manager.wallets@[i].private_key@) {
                Ok(bytes) => Ok(bytes),
                Err(k) => Err(HandleError::InvalidPrivateKey(k)),
            }
        },
    }
}

/// What keeps the wallet `id` from carrying a trade, if anything does: it
/// is not in the registry, or it is not active.
pub open spec fn out_of_service(manager: WalletManager, id: Seq<char>) -> Option<HandleError> {
    match manager.position(id) {
        None => Some(HandleError::WalletNotFound),
        Some(i) => if manager.wallets@[i].status != WalletStatus::Active {
            Some(HandleError::WalletInactive)
        } else {
            None
        },
    }
}

/// A signing handle is handed out only for a wallet that is active.
pub proof fn lemma_handle_means_in_service(manager: WalletManager, id: Seq<char>)
    ensures
        handle_of(manager, id) is Ok ==> out_of_service(manager, id) is None,
        out_of_service(manager, id) matches Some(e) ==> handle_of(manager, id) == Err::<
            Seq<u8>,
            HandleError,
        >(e),
{
}

/// The name of why a signing handle was not handed out.
pub open spec fn handle_error_name(error: HandleError) -> Seq<char> {
    match error {
        HandleError::WalletNotFound => "WalletNotFound"@,
        HandleError::WalletInactive => "WalletInactive"@,
        HandleError::InvalidPrivateKey(_) => "InvalidPrivateKey"@,
    }
}

/// The name of why a signing handle was not handed out, as a text.
pub fn handle_error_text(error: HandleError) -> (r: String)
    ensures
        r@ == handle_error_name(error),
{
    match error {
        HandleError::WalletNotFound => String::from_str("WalletNotFound"),
        HandleError::WalletInactive => String::from_str("WalletInactive"),
        HandleError::InvalidPrivateKey(_) => String::from_str("InvalidPrivateKey"),
    }
}

/// The type of wallet that a strategy prefers.
pub open spec fn preferred_wallet_type(strategy: StrategyType) -> Option<WalletType> {
    match strategy {
        StrategyType::Arbitrage => Some(WalletType::Arbitrage),
        StrategyType::TokenSniping => Some(WalletType::HFT),
        StrategyType::MomentumTrading => Some(WalletType::Primary),
        StrategyType::SoulMeteorSniping => Some(WalletType::Experimental),
        StrategyType::MeteoraDAMM => Some(WalletType::Experimental),
        StrategyType::DeveloperTracking => Some(WalletType::Experimental),
        StrategyType::AxiomMemeCoin => Some(WalletType::Experimental),
        StrategyType::AIDecision => Some(WalletType::Primary),
    }
}

/// The balance that a wallet needs for a signal: the value of the approved
/// trade and a tenth more.
pub open spec fn required_balance(signal: ApprovedSignal) -> int {
    scaled_product(signal.notional(), 1_100_000)
}

/// Whether `criteria` are those of `signal` with the wallets `exclude` left
/// out.
pub open spec fn is_criteria_of(
    criteria: WalletSelectionCriteria,
    signal: ApprovedSignal,
    exclude: Seq<String>,
) -> bool {
    &&& criteria.strategy_type == signal.original_signal.strategy_type
    &&& criteria.position_size == signal.approved_quantity
    &&& criteria.required_balance as int == required_balance(signal)
    &&& criteria.risk_tolerance == signal.risk_score
    &&& criteria.preferred_wallet_type == preferred_wallet_type(
        signal.original_signal.strategy_type,
    )
    &&& criteria.exclude_wallets@ == exclude
}

/// The part of a transaction identifier that names the wallet: what stands
/// before its first underscore, or all of it where it has none.
pub open spec fn wallet_part(transaction_id: Seq<char>) -> Seq<char> {
    transaction_id.take(first_index_of(transaction_id, '_'))
}

/// The wallet that a transaction identifier names.
pub fn wallet_of_transaction(transaction_id: &str) -> (r: String)
    ensures
        r@ == wallet_part(transaction_id@),
{
    let v = chars_of(transaction_id);
    let end = find_char(&v, 0, '_');
    proof {
        assert(v@.skip(0) =~= v@);
        assert(v@.subrange(0, end as int) =~= v@.take(end as int));
    }
    string_of(&v, 0, end)
}

/// The wallets of a list of usages.
pub open spec fn usage_ids(usage: Seq<WalletUsage>) -> Seq<Seq<char>> {
    Seq::new(usage.len(), |i: int| usage[i].wallet_id@)
}

/// Whether `after` is `before` with one more execution by the wallet `id`:
/// the count of its first entry is raised, up to the largest number; or,
/// where it has no entry, it is listed last with a count of one.
pub open spec fn is_usage_counted(
    after: Seq<WalletUsage>,
    before: Seq<WalletUsage>,
    id: Seq<char>,
) -> bool {
    match crate::lists::index_in(usage_ids(before), id) {
        Some(i) => after == before.update(
            i,
            WalletUsage { executions: saturating_sum(before[i].executions, 1), ..before[i] },
        ),
        None => {
            &&& after.len() == before.len() + 1
            &&& after.drop_last() == before
            &&& after.last().wallet_id@ == id
            &&& after.last().executions == 1
        },
    }
}

/// Counts one more execution by the wallet `id`.
pub fn count_usage(usage: &mut Vec<WalletUsage>, id: String)
    ensures
        is_usage_counted(final(usage)@, old(usage)@, id@),
{
    let mut i: usize = 0;
    let ghost start = usage@;
    let ghost ids = usage_ids(start);
    while i < usage.len()
        invariant
            i <= usage@.len(),
            usage@ == start,
            start == old(usage)@,
            ids == usage_ids(start),
            forall|j: int| 0 <= j < i ==> ids[j] != id@,
        decreases usage.len() - i,
    {
        if same_text(usage[i].wallet_id.as_str(), id.as_str()) {
            let count = saturating_add(usage[i].executions, 1);
            usage[i].executions = count;
            proof {
                crate::lists::lemma_index_in_is(ids, id@, i as int);
                assert(usage@ =~= start.update(
                    i as int,
                    WalletUsage { executions: count, ..start[i as int] },
                ));
            }
            return ;
        }
        i += 1;
    }
    proof {
        crate::lists::lemma_index_in(ids, id@);
    }
    usage.push(WalletUsage { wallet_id: id, executions: 1 });
    proof {
        assert(usage@.drop_last() =~= start);
    }
}

/// Executes approved signals with the wallets of a registry.
#[derive(Debug)]
pub struct MultiWalletExecutor {
    pub trading_mode: TradingMode,
    pub solana_rpc_url: String,
    pub is_running: bool,
    pub hft_engine: Option<OvermindHFTEngine>,
    pub hft_mode_enabled: bool,
    pub wallet_selection_timeout_ms: u64,
    pub fallback_wallet_id: Option<String>,
    pub execution_stats: ExecutionStats,
}

/// The name of what stood against a reservation.
pub open spec fn refusal_name(reason: ReserveRejection) -> Seq<char> {
    match reason {
        ReserveRejection::UnknownWallet => "UnknownWallet"@,
        ReserveRejection::DailyLossBreached => "DailyLossBreached"@,
        ReserveRejection::ExposureBreached => "ExposureBreached"@,
        ReserveRejection::PositionCountBreached => "PositionCountBreached"@,
        ReserveRejection::TradeCapBreached => "TradeCapBreached"@,
        ReserveRejection::TokensExhausted => "TokensExhausted"@,
    }
}

/// The name of what stood against a reservation, as a text.
pub fn refusal_text(reason: ReserveRejection) -> (r: String)
    ensures
        r@ == refusal_name(reason),
{
    match reason {
        ReserveRejection::UnknownWallet => String::from_str("UnknownWallet"),
        ReserveRejection::DailyLossBreached => String::from_str("DailyLossBreached"),
        ReserveRejection::ExposureBreached => String::from_str("ExposureBreached"),
        ReserveRejection::PositionCountBreached => String::from_str("PositionCountBreached"),
        ReserveRejection::TradeCapBreached => String::from_str("TradeCapBreached"),
        ReserveRejection::TokensExhausted => String::from_str("TokensExhausted"),
    }
}

/// The outcome of a reservation of `notional` against a wallet: the reason
/// that stands against it, or the next token.
pub open spec fn reservation_outcome(
    envelopes: EnvelopeState,
    manager: WalletManager,
    wallet_id: Seq<char>,
    notional: u64,
) -> Result<u64, ReserveRejection> {
    match envelopes.refusal(manager, wallet_id, notional) {
        Some(reason) => Err(reason),
        None => Ok(envelopes.next_token),
    }
}

/// While the emergency halt is set, no signal is routed.
pub proof fn lemma_halt_routes_nothing(
    executor: MultiWalletExecutor,
    manager: WalletManager,
    signal: ApprovedSignal,
    exclude: Seq<String>,
    elapsed_ms: u64,
    now: i64,
    routing: Result<RoutedSignal, RouteError>,
)
    requires
        executor.routes_at(manager, true, signal, exclude, elapsed_ms, now, routing),
    ensures
        routing matches Err(e) && e == RouteError::Halted,
{
}

/// No signal is routed to a wallet that is out of active service, neither
/// for its score nor as the fallback.
pub proof fn lemma_no_route_to_wallet_out_of_service(
    executor: MultiWalletExecutor,
    manager: WalletManager,
    halted: bool,
    signal: ApprovedSignal,
    exclude: Seq<String>,
    elapsed_ms: u64,
    now: i64,
    routing: Result<RoutedSignal, RouteError>,
    w: int,
)
    requires
        manager.well_formed(),
        executor.routes_at(manager, halted, signal, exclude, elapsed_ms, now, routing),
        0 <= w < manager.wallets@.len(),
        manager.wallets@[w].status != WalletStatus::Active,
    ensures
        routing matches Ok(routed) ==> routed.selected_wallet_id@ != manager.wallets@[w].wallet_id@,
{
    let ids = wallet_ids(manager.wallets@);
    assert(ids[w] == manager.wallets@[w].wallet_id@);
    match routing {
        Ok(routed) => {
            let criteria = choose|criteria: WalletSelectionCriteria|
                is_criteria_of(criteria, signal, exclude) && #[trigger] executor.routes_as(
                    manager,
                    halted,
                    signal,
                    criteria,
                    elapsed_ms,
                    now,
                    routing,
                );
            if elapsed_ms <= executor.wallet_selection_timeout_ms && !manager.none_eligible(
                criteria,
            ) {
                let i = choose|i: int|
                    #[trigger] manager.is_best(i, criteria) && MultiWalletExecutor::is_routed(
                        routed,
                        signal,
                        manager.wallets@[i].wallet_id@,
                        "Best score"@,
                        now,
                    );
                assert(ids[i] == manager.wallets@[i].wallet_id@);
                assert(i != w);
            } else {
                crate::lists::lemma_index_in(ids, routed.selected_wallet_id@);
                let i = manager.position(routed.selected_wallet_id@)->0;
                assert(i != w);
            }
        },
        Err(_) => {},
    }
}

/// The emergency halt as a whole. Once a confirmed trade has taken the loss
/// of the day of its wallet to the wallet's limit, no signal is routed to
/// that wallet; and once the share of wallets in emergency mode has reached
/// the threshold, no signal is routed at all.
pub proof fn lemma_breach_stops_routing(
    state: EnvelopeState,
    manager: WalletManager,
    after: EnvelopeState,
    after_manager: WalletManager,
    token: u64,
    result: ExecutionResult,
    applied_at: i64,
    outcome: Applied,
    executor: MultiWalletExecutor,
    signal: ApprovedSignal,
    exclude: Seq<String>,
    elapsed_ms: u64,
    now: i64,
    routing: Result<RoutedSignal, RouteError>,
)
    requires
        manager.well_formed(),
        after_manager.well_formed(),
        state.applied(manager, after, after_manager, token, result, applied_at, outcome),
        result.status == ExecutionStatus::Confirmed,
        active_at(state.reservations@, token) matches Some(i) && shown(
            manager,
            state.reservations@[i].wallet_id@,
        ) is Some,
        executor.routes_at(after_manager, after.halted, signal, exclude, elapsed_ms, now, routing),
    ensures
        ({
            let id = state.reservations@[active_at(state.reservations@, token)->0].wallet_id@;
            &&& shown(after_manager, id) matches Some(next)
            &&& loss_breached(next.0.daily_pnl, next.1.max_daily_loss) ==> !(routing matches Ok(
                routed,
            ) && routed.selected_wallet_id@ == id)
            &&& halt_due(after_manager.wallets@, state.emergency_stop_threshold)
                ==> (routing matches Err(e) && e == RouteError::Halted)
        }),
{
    let id = state.reservations@[active_at(state.reservations@, token)->0].wallet_id@;
    lemma_applied_trade_shows_in_snapshot(
        state,
        manager,
        after,
        after_manager,
        token,
        result,
        applied_at,
        outcome,
    );
    crate::lists::lemma_index_in(wallet_ids(manager.wallets@), id);
    crate::lists::lemma_index_in(wallet_ids(after_manager.wallets@), id);
    let w = manager.position(id)->0;
    assert(wallet_ids(after_manager.wallets@) =~= wallet_ids(manager.wallets@));
    let next = shown(after_manager, id)->0;
    if loss_breached(next.0.daily_pnl, next.1.max_daily_loss) {
        assert(after_manager.wallets@[w].status == WalletStatus::Emergency);
        assert(after_manager.wallets@[w].wallet_id@ == id);
        lemma_no_route_to_wallet_out_of_service(
            executor,
            after_manager,
            after.halted,
            signal,
            exclude,
            elapsed_ms,
            now,
            routing,
            w,
        );
    }
    if halt_due(after_manager.wallets@, state.emergency_stop_threshold) {
        lemma_halt_routes_nothing(
            executor,
            after_manager,
            signal,
            exclude,
            elapsed_ms,
            now,
            routing,
        );
    }
}

/// Whether `r` and the envelopes `after` are what comes of preparing
/// `signal` after it was routed as `routing` says. A signal that was not
/// routed gives a failure with the error `halted` or `NoSuitableWallet`
/// and leaves the envelopes as they were. A signal that was routed has
/// its value reserved against the wallet: where the reservation is
/// refused, the result is a failure with the name of the reason; else
/// the routed signal comes back with the token of the reservation.
pub open spec fn prepares(
    routing: Result<RoutedSignal, RouteError>,
    manager: WalletManager,
    before: EnvelopeState,
    after: EnvelopeState,
    signal: ApprovedSignal,
    now: i64,
    r: Result<(RoutedSignal, u64), ExecutionResult>,
) -> bool {
    match routing {
        Err(RouteError::Halted) => after == before && (r matches Err(result)
            && result.is_unfilled(signal, ""@, ExecutionStatus::Failed, "halted"@, now)),
        Err(RouteError::NoSuitableWallet) => after == before && (r matches Err(result)
            && result.is_unfilled(
            signal,
            ""@,
            ExecutionStatus::Failed,
            "NoSuitableWallet"@,
            now,
        )),
        Ok(routed) => {
            let id = routed.selected_wallet_id@;
            let notional = signal.notional() as u64;
            let outcome = reservation_outcome(before, manager, id, notional);
            &&& before.reserves(
                manager,
                after,
                id,
                signal.original_signal.symbol@,
                signal.original_signal.strategy_type,
                signal.original_signal.action,
                notional,
                outcome,
            )
            &&& after.halted == before.halted
            &&& after.current_day == before.current_day
            &&& after.emergency_stop_threshold == before.emergency_stop_threshold
            &&& match outcome {
                Err(reason) => r matches Err(result) && result.is_unfilled(
                    signal,
                    ""@,
                    ExecutionStatus::Failed,
                    refusal_name(reason),
                    now,
                ),
                Ok(token) => r matches Ok(pair) && pair.0 == routed && pair.1 == token,
            }
        },
    }
}

impl MultiWalletExecutor {
    /// An executor without the inference engine, not running, that has
    /// done nothing yet.
    pub fn new(
        trading_mode: TradingMode,
        solana_rpc_url: String,
        wallet_selection_timeout_ms: u64,
        fallback_wallet_id: Option<String>,
    ) -> (r: Self)
        ensures
            r.trading_mode == trading_mode,
            r.solana_rpc_url == solana_rpc_url,
            !r.is_running,
            r.hft_engine is None,
            !r.hft_mode_enabled,
            r.wallet_selection_timeout_ms == wallet_selection_timeout_ms,
            r.fallback_wallet_id == fallback_wallet_id,
            r.execution_stats.total_executions == 0,
            r.execution_stats.successful_executions == 0,
            r.execution_stats.failed_executions == 0,
            r.execution_stats.wallet_usage@.len() == 0,
    {
        MultiWalletExecutor {
            trading_mode,
            solana_rpc_url,
            is_running: false,
            hft_engine: None,
            hft_mode_enabled: false,
            wallet_selection_timeout_ms,
            fallback_wallet_id,
            execution_stats: ExecutionStats::default(),
        }
    }

    /// An executor with the inference engine that `hft_config` describes;
    /// or the error that the configuration gives.
    pub fn new_with_hft(
        trading_mode: TradingMode,
        solana_rpc_url: String,
        wallet_selection_timeout_ms: u64,
        fallback_wallet_id: Option<String>,
        hft_config: HFTConfig,
    ) -> (r: Result<Self, HFTError>)
        ensures
            r is Ok <==> hft_config.valid(),
            r matches Err(e) ==> e == HFTError::InvalidConfig,
            r matches Ok(executor) ==> {
                &&& executor.trading_mode == trading_mode
                &&& executor.solana_rpc_url == solana_rpc_url
                &&& !executor.is_running
                &&& executor.hft_mode_enabled
                &&& executor.hft_engine matches Some(engine)
                &&& engine.config == hft_config
                &&& engine.metrics.is_fresh()
                &&& executor.wallet_selection_timeout_ms == wallet_selection_timeout_ms
                &&& executor.fallback_wallet_id == fallback_wallet_id
                &&& executor.execution_stats.total_executions == 0
                &&& executor.execution_stats.wallet_usage@.len() == 0
            },
    {
        match OvermindHFTEngine::new(hft_config) {
            Ok(engine) => Ok(
                MultiWalletExecutor {
                    trading_mode,
                    solana_rpc_url,
                    is_running: false,
                    hft_engine: Some(engine),
                    hft_mode_enabled: true,
                    wallet_selection_timeout_ms,
                    fallback_wallet_id,
                    execution_stats: ExecutionStats::default(),
                },
            ),
            Err(e) => Err(e),
        }
    }

    /// Marks the executor as running.
    pub fn start(&mut self)
        ensures
            *final(self) == (MultiWalletExecutor { is_running: true, ..*old(self) }),
    {
        self.is_running = true;
    }

    /// Marks the executor as stopped.
    pub fn stop(&mut self)
        ensures
            *final(self) == (MultiWalletExecutor { is_running: false, ..*old(self) }),
    {
        self.is_running = false;
    }

    /// What the executor has done so far.
    pub fn get_execution_stats(&self) -> (r: &ExecutionStats)
        ensures
            *r == self.execution_stats,
    {
        &self.execution_stats
    }

    /// The type of wallet that the strategy `strategy_type` prefers.
    pub fn determine_preferred_wallet_type(&self, strategy_type: StrategyType) -> (r: Option<
        WalletType,
    >)
        ensures
            r == preferred_wallet_type(strategy_type),
    {
        match strategy_type {
            StrategyType::Arbitrage => Some(WalletType::Arbitrage),
            StrategyType::TokenSniping => Some(WalletType::HFT),
            StrategyType::MomentumTrading => Some(WalletType::Primary),
            StrategyType::SoulMeteorSniping => Some(WalletType::Experimental),
            StrategyType::MeteoraDAMM => Some(WalletType::Experimental),
            StrategyType::DeveloperTracking => Some(WalletType::Experimental),
            StrategyType::AxiomMemeCoin => Some(WalletType::Experimental),
            StrategyType::AIDecision => Some(WalletType::Primary),
        }
    }

    /// What `signal` asks of the wallet that is to carry it, with the
    /// wallets `exclude` left out.
    pub fn selection_criteria(&self, signal: &ApprovedSignal, exclude: Vec<String>) -> (r:
        WalletSelectionCriteria)
        requires
            signal.well_formed(),
        ensures
            is_criteria_of(r, *signal, exclude@),
    {
        proof {
            signal.lemma_notional_within_limit();
            lemma_scaled_product_monotonic(
                signal.notional(),
                crate::fixed::MAX_NOTIONAL as int,
                1_100_000,
                1_100_000,
            );
            assert((1_000_000_000_000_000_000int * 1_100_000) / 1_000_000
                == 1_100_000_000_000_000_000int) by (nonlinear_arith);
        }
        let notional = scaled_mul(signal.approved_quantity, signal.original_signal.target_price);
        WalletSelectionCriteria {
            strategy_type: signal.original_signal.strategy_type,
            position_size: signal.approved_quantity,
            required_balance: scaled_mul(notional, 1_100_000),
            risk_tolerance: signal.risk_score,
            preferred_wallet_type: self.determine_preferred_wallet_type(
                signal.original_signal.strategy_type,
            ),
            exclude_wallets: exclude,
        }
    }

    /// Whether the fallback wallet can be used for a position of the size
    /// `size`: one is set, it is in the registry, it is active, and it may
    /// hold a position of that size.
    pub open spec fn fallback_usable(&self, manager: WalletManager, size: u64) -> bool {
        self.fallback_wallet_id matches Some(id) && (manager.position(id@) matches Some(i)
            && manager.wallets@[i].status == WalletStatus::Active && size
            <= manager.wallets@[i].risk_limits.max_position_size)
    }

    /// Whether `routed` is `signal` routed at `now` to the wallet `wallet`
    /// for the reason `reason`.
    pub open spec fn is_routed(
        routed: RoutedSignal,
        signal: ApprovedSignal,
        wallet: Seq<char>,
        reason: Seq<char>,
        now: i64,
    ) -> bool {
        &&& routed.original_signal == signal
        &&& routed.selected_wallet_id@ == wallet
        &&& routed.wallet_selection_reason@ == reason
        &&& routed.routing_timestamp == now
    }

    /// Whether `r` is how `signal` is routed by `criteria` at `now`, after
    /// the selection took `elapsed_ms`. With the emergency halt set, nothing
    /// is routed. A selection within its time goes to the best wallet that is
    /// eligible. Where the selection ran out of time or found no wallet, the
    /// fallback wallet is used if one is set and active; else no wallet is
    /// suitable.
    pub open spec fn routes_as(
        &self,
        manager: WalletManager,
        halted: bool,
        signal: ApprovedSignal,
        criteria: WalletSelectionCriteria,
        elapsed_ms: u64,
        now: i64,
        r: Result<RoutedSignal, RouteError>,
    ) -> bool {
        if halted {
            r matches Err(e) && e == RouteError::Halted
        } else if elapsed_ms <= self.wallet_selection_timeout_ms && !manager.none_eligible(
            criteria,
        ) {
            r matches Ok(routed) && exists|i: int|
                #[trigger] manager.is_best(i, criteria) && Self::is_routed(
                    routed,
                    signal,
                    manager.wallets@[i].wallet_id@,
                    "Best score"@,
                    now,
                )
        } else if self.fallback_usable(manager, criteria.position_size) {
            r matches Ok(routed) && Self::is_routed(
                routed,
                signal,
                self.fallback_wallet_id->0@,
                "Fallback due to selection failure"@,
                now,
            )
        } else {
            r matches Err(e) && e == RouteError::NoSuitableWallet
        }
    }

    /// Whether `r` is the one result for `signal` after it was routed as
    /// `routing` says: a failure with the error `halted` or
    /// `NoSuitableWallet` where it was not routed, else the result of
    /// executing it with the wallet it was routed to.
    pub open spec fn completes(
        &self,
        routing: Result<RoutedSignal, RouteError>,
        signal: ApprovedSignal,
        answer: Option<Result<HFTExecutionResult, HFTError>>,
        nonce: Seq<char>,
        now: i64,
        r: ExecutionResult,
    ) -> bool {
        match routing {
            Err(RouteError::Halted) => r.is_unfilled(
                signal,
                ""@,
                ExecutionStatus::Failed,
                "halted"@,
                now,
            ),
            Err(RouteError::NoSuitableWallet) => r.is_unfilled(
                signal,
                ""@,
                ExecutionStatus::Failed,
                "NoSuitableWallet"@,
                now,
            ),
            Ok(routed) => is_result_in_mode(
                r,
                self.trading_mode,
                self.hft_mode_enabled,
                routed.original_signal,
                answer,
                routed.selected_wallet_id@ + "_"@,
                nonce,
                now,
            ),
        }
    }

    /// Whether `routing` is how `signal` is routed at `now` by its own
    /// criteria, with the wallets of `exclude` left out.
    pub open spec fn routes_at(
        &self,
        manager: WalletManager,
        halted: bool,
        signal: ApprovedSignal,
        exclude: Seq<String>,
        elapsed_ms: u64,
        now: i64,
        routing: Result<RoutedSignal, RouteError>,
    ) -> bool {
        exists|criteria: WalletSelectionCriteria|
            is_criteria_of(criteria, signal, exclude) && #[trigger] self.routes_as(
                manager,
                halted,
                signal,
                criteria,
                elapsed_ms,
                now,
                routing,
            )
    }

    /// Whether `r` is the one result for `signal` at `now` under the
    /// identifier `nonce`: the result that completes the way the signal is
    /// routed with no wallet left out.
    pub open spec fn processes(
        &self,
        manager: WalletManager,
        halted: bool,
        signal: ApprovedSignal,
        answer: Option<Result<HFTExecutionResult, HFTError>>,
        elapsed_ms: u64,
        nonce: Seq<char>,
        now: i64,
        r: ExecutionResult,
    ) -> bool {
        exists|routing: Result<RoutedSignal, RouteError>|
            {
                &&& #[trigger] self.routes_at(
                    manager,
                    halted,
                    signal,
                    Seq::<String>::empty(),
                    elapsed_ms,
                    now,
                    routing,
                )
                &&& self.completes(routing, signal, answer, nonce, now, r)
            }
    }

    /// Routes `signal` to a wallet of `manager` by `criteria`, at `now`,
    /// after the selection took `elapsed_ms`. With the emergency halt set,
    /// nothing is routed. A selection within its time goes to the best
    /// wallet that is eligible. Where the selection ran out of time or found
    /// no wallet, the fallback wallet is used if one is set and active; else
    /// no wallet is suitable. The wallet that a signal is routed to is
    /// active; unless it is the fallback, it has the strategy of the
    /// criteria enabled.
    pub fn route_by(
        &self,
        manager: &WalletManager,
        halted: bool,
        signal: &ApprovedSignal,
        criteria: &WalletSelectionCriteria,
        elapsed_ms: u64,
        now: i64,
    ) -> (r: Result<RoutedSignal, RouteError>)
        requires
            manager.well_formed(),
        ensures
            self.routes_as(*manager, halted, *signal, *criteria, elapsed_ms, now, r),
            r matches Ok(routed) ==> (manager.position(routed.selected_wallet_id@) matches Some(i)
                && manager.wallets@[i].status == WalletStatus::Active && criteria.position_size
                <= manager.wallets@[i].risk_limits.max_position_size && (
            routed.wallet_selection_reason@ == "Best score"@ ==> manager.wallets@[i].serves(
                criteria.strategy_type,
            ))),
    {
        proof {
            reveal_strlit("Best score");
            reveal_strlit("Fallback due to selection failure");
        }
        if halted {
            return Err(RouteError::Halted);
        }
        if elapsed_ms <= self.wallet_selection_timeout_ms {
            match manager.select_wallet(criteria) {
                Ok(selection) => {
                    proof {
                        let i = choose|i: int|
                            #[trigger] manager.is_best(i, *criteria) && selection.wallet_id@
                                == manager.wallets@[i].wallet_id@;
                        let ids = crate::modules::wallet_manager::wallet_ids(manager.wallets@);
                        crate::lists::lemma_index_in(ids, selection.wallet_id@);
                        assert(ids[i] == selection.wallet_id@);
                        assert(manager.position(selection.wallet_id@) == Some(i));
                        assert(eligible(manager.wallets@[i], *criteria));
                        assert(!manager.none_eligible(*criteria));
                    }
                    return Ok(
                        RoutedSignal {
                            original_signal: signal.clone(),
                            selected_wallet_id: selection.wallet_id,
                            wallet_selection_reason: selection.selection_reason,
                            routing_timestamp: now,
                        },
                    );
                },
                Err(_) => {},
            }
        }
        match &self.fallback_wallet_id {
            Some(id) => match manager.find_wallet(id.as_str()) {
                Some(i) => {
                    if manager.wallets[i].status == WalletStatus::Active && criteria.position_size
                        <= manager.wallets[i].risk_limits.max_position_size {
                        let routed = RoutedSignal {
                            original_signal: signal.clone(),
                            selected_wallet_id: id.clone(),
                            wallet_selection_reason: String::from_str(
                                "Fallback due to selection failure",
                            ),
                            routing_timestamp: now,
                        };
                        assert(routed.wallet_selection_reason@.len() == 33);
                        assert("Best score"@.len() == 10);
                        Ok(routed)
                    } else {
                        Err(RouteError::NoSuitableWallet)
                    }
                },
                None => Err(RouteError::NoSuitableWallet),
            },
            None => Err(RouteError::NoSuitableWallet),
        }
    }

    /// Routes `signal` as `route_by` does, by the criteria of the signal
    /// with the wallets `exclude` left out.
    pub fn route_signal(
        &self,
        manager: &WalletManager,
        halted: bool,
        signal: &ApprovedSignal,
        exclude: Vec<String>,
        elapsed_ms: u64,
        now: i64,
    ) -> (r: Result<RoutedSignal, RouteError>)
        requires
            manager.well_formed(),
            signal.well_formed(),
        ensures
            halted ==> (r matches Err(e) && e == RouteError::Halted),
            r matches Ok(routed) ==> routed.original_signal == *signal && routed.routing_timestamp
                == now && (manager.position(routed.selected_wallet_id@) matches Some(i)
                && manager.wallets@[i].status == WalletStatus::Active && signal.approved_quantity
                <= manager.wallets@[i].risk_limits.max_position_size && (
            routed.wallet_selection_reason@ == "Best score"@ ==> manager.wallets@[i].serves(
                signal.original_signal.strategy_type,
            ))),
            r matches Err(e) ==> e == RouteError::Halted || e == RouteError::NoSuitableWallet,
            (r matches Err(e) && e == RouteError::NoSuitableWallet) ==> !halted
                && !self.fallback_usable(*manager, signal.approved_quantity),
            (r matches Err(e) && e == RouteError::Halted) ==> halted,
            self.routes_at(*manager, halted, *signal, exclude@, elapsed_ms, now, r),
    {
        let criteria = self.selection_criteria(signal, exclude);
        let r = self.route_by(manager, halted, signal, &criteria, elapsed_ms, now);
        assert(self.routes_as(*manager, halted, *signal, criteria, elapsed_ms, now, r));
        r
    }

    /// Routes `signal` as `route_signal` does, under the emergency halt of
    /// `envelopes`: while the halt is set, nothing is routed.
    pub fn route_under(
        &self,
        manager: &WalletManager,
        envelopes: &EnvelopeState,
        signal: &ApprovedSignal,
        exclude: Vec<String>,
        elapsed_ms: u64,
        now: i64,
    ) -> (r: Result<RoutedSignal, RouteError>)
        requires
            manager.well_formed(),
            signal.well_formed(),
        ensures
            envelopes.halted ==> (r matches Err(e) && e == RouteError::Halted),
            self.routes_at(*manager, envelopes.halted, *signal, exclude@, elapsed_ms, now, r),
            r matches Ok(routed) ==> routed.original_signal == *signal && routed.routing_timestamp
                == now,
            r matches Ok(routed) ==> (manager.position(routed.selected_wallet_id@) matches Some(i)
                && manager.wallets@[i].status == WalletStatus::Active && signal.approved_quantity
                <= manager.wallets@[i].risk_limits.max_position_size),
    {
        self.route_signal(manager, envelopes.halted, signal, exclude, elapsed_ms, now)
    }

    /// Routes `signal` as `route_signal` does, with no wallet left out and
    /// at the time of the system clock.
    pub fn select_wallet_for_signal(
        &self,
        manager: &WalletManager,
        halted: bool,
        signal: &ApprovedSignal,
        elapsed_ms: u64,
    ) -> (r: Result<RoutedSignal, RouteError>)
        requires
            manager.well_formed(),
            signal.well_formed(),
        ensures
            halted ==> (r matches Err(e) && e == RouteError::Halted),
            r matches Ok(routed) ==> routed.original_signal == *signal && (manager.position(
                routed.selected_wallet_id@,
            ) matches Some(i) && manager.wallets@[i].status == WalletStatus::Active
                && signal.approved_quantity <= manager.wallets@[i].risk_limits.max_position_size
                && (
            routed.wallet_selection_reason@ == "Best score"@ ==> manager.wallets@[i].serves(
                signal.original_signal.strategy_type,
            ))),
            exists|now: i64| #[trigger]
                self.routes_at(
                    *manager,
                    halted,
                    *signal,
                    Seq::<String>::empty(),
                    elapsed_ms,
                    now,
                    r,
                ),
    {
        let now = now_millis();
        let exclude: Vec<String> = Vec::new();
        assert(exclude@ =~= Seq::<String>::empty());
        self.route_signal(manager, halted, signal, exclude, elapsed_ms, now)
    }

    /// The signing handle for a routed signal: the key pair of its wallet,
    /// as long as the wallet is still active. A wallet that is no longer
    /// active gives an error after which the signal is to be routed again
    /// without it.
    pub fn fetch_signing_handle(&self, manager: &WalletManager, routed: &RoutedSignal) -> (r:
        Result<solana_sdk::signature::Keypair, HandleError>)
        ensures
            match handle_of(*manager, routed.selected_wallet_id@) {
                Ok(bytes) => r matches Ok(keypair) && keypair_bytes(keypair) == bytes,
                Err(e) => r matches Err(f) && f == e,
            },
    {
        match manager.find_wallet(routed.selected_wallet_id.as_str()) {
            None => Err(HandleError::WalletNotFound),
            Some(i) => {
                if manager.wallets[i].status != WalletStatus::Active {
                    Err(HandleError::WalletInactive)
                } else {
                    match parse_private_key(manager.wallets[i].private_key.as_str()) {
                        Ok(keypair) => Ok(keypair),
                        Err(k) => Err(HandleError::InvalidPrivateKey(k)),
                    }
                }
            },
        }
    }

    /// The result of executing a routed signal in the executor's mode; its
    /// transaction identifier begins with the wallet's identifier and an
    /// underscore. Exactly one result comes back, under the signal's
    /// identifier.
    pub fn execute_routed_signal(
        &self,
        routed_signal: &RoutedSignal,
        answer: &Option<Result<HFTExecutionResult, HFTError>>,
        nonce: &str,
        now: i64,
    ) -> (r: ExecutionResult)
        requires
            routed_signal.original_signal.well_formed(),
        ensures
            is_result_in_mode(
                r,
                self.trading_mode,
                self.hft_mode_enabled,
                routed_signal.original_signal,
                *answer,
                routed_signal.selected_wallet_id@ + "_"@,
                nonce@,
                now,
            ),
            r.signal_id@ == routed_signal.original_signal.original_signal.signal_id@,
            r.timestamp == now,
            r.well_formed(),
    {
        let prefix = routed_signal.selected_wallet_id.clone().concat("_");
        trade_in_mode(
            self.trading_mode,
            self.hft_mode_enabled,
            &routed_signal.original_signal,
            answer,
            prefix.as_str(),
            nonce,
            now,
        )
    }

    /// Whether `after` is the executor once `result` was counted: one more
    /// execution in all, one more success for a confirmed result or failure
    /// for a failed one, and one more use of the wallet that the
    /// transaction identifier names. Nothing else changes.
    pub open spec fn counts(&self, after: MultiWalletExecutor, result: ExecutionResult) -> bool {
        &&& after.trading_mode == self.trading_mode
        &&& after.solana_rpc_url == self.solana_rpc_url
        &&& after.is_running == self.is_running
        &&& after.hft_engine == self.hft_engine
        &&& after.hft_mode_enabled == self.hft_mode_enabled
        &&& after.wallet_selection_timeout_ms == self.wallet_selection_timeout_ms
        &&& after.fallback_wallet_id == self.fallback_wallet_id
        &&& after.execution_stats.strategy_routing == self.execution_stats.strategy_routing
        &&& after.execution_stats.total_executions == saturating_sum(
            self.execution_stats.total_executions,
            1,
        )
        &&& after.execution_stats.successful_executions == if result.status
            == ExecutionStatus::Confirmed {
            saturating_sum(self.execution_stats.successful_executions, 1)
        } else {
            self.execution_stats.successful_executions
        }
        &&& after.execution_stats.failed_executions == if result.status
            == ExecutionStatus::Failed {
            saturating_sum(self.execution_stats.failed_executions, 1)
        } else {
            self.execution_stats.failed_executions
        }
        &&& is_usage_counted(
            after.execution_stats.wallet_usage@,
            self.execution_stats.wallet_usage@,
            wallet_part(result.transaction_id@),
        )
    }

    /// Counts the result of an execution: one more execution in all, one
    /// more success for a confirmed result or failure for a failed one, and
    /// one more use of the wallet that the transaction identifier names.
    pub fn update_execution_stats(&mut self, result: &ExecutionResult)
        ensures
            old(self).counts(*final(self), *result),
    {
        self.execution_stats.total_executions = saturating_add(
            self.execution_stats.total_executions,
            1,
        );
        match result.status {
            ExecutionStatus::Confirmed => {
                self.execution_stats.successful_executions = saturating_add(
                    self.execution_stats.successful_executions,
                    1,
                );
            },
            ExecutionStatus::Failed => {
                self.execution_stats.failed_executions = saturating_add(
                    self.execution_stats.failed_executions,
                    1,
                );
            },
            _ => {},
        }
        let wallet = wallet_of_transaction(result.transaction_id.as_str());
        count_usage(&mut self.execution_stats.wallet_usage, wallet);
    }

    /// Prepares `signal` for execution: routes it under the emergency halt
    /// of `envelopes`, with the wallets `exclude` left out, and reserves its
    /// value against the wallet it was routed to. What comes back is the
    /// routed signal with the token of its reservation, or the one result
    /// of a signal that cannot be executed, which is a failure and is
    /// counted.
    pub fn prepare_signal(
        &mut self,
        manager: &WalletManager,
        envelopes: &mut EnvelopeState,
        signal: &ApprovedSignal,
        exclude: Vec<String>,
        elapsed_ms: u64,
        now: i64,
    ) -> (r: Result<(RoutedSignal, u64), ExecutionResult>)
        requires
            manager.well_formed(),
            old(envelopes).well_formed(),
            signal.well_formed(),
        ensures
            final(envelopes).well_formed(),
            exists|routing: Result<RoutedSignal, RouteError>|
                {
                    &&& #[trigger] old(self).routes_at(
                        *manager,
                        old(envelopes).halted,
                        *signal,
                        exclude@,
                        elapsed_ms,
                        now,
                        routing,
                    )
                    &&& prepares(
                        routing,
                        *manager,
                        *old(envelopes),
                        *final(envelopes),
                        *signal,
                        now,
                        r,
                    )
                },
            old(envelopes).halted ==> (r matches Err(result) && result.is_unfilled(
                *signal,
                ""@,
                ExecutionStatus::Failed,
                "halted"@,
                now,
            )),
            r matches Err(result) ==> result.status == ExecutionStatus::Failed
                && result.signal_id@ == signal.original_signal.signal_id@ && result.well_formed(),
            r matches Ok(pair) ==> pair.0.original_signal == *signal && (manager.position(
                pair.0.selected_wallet_id@,
            ) matches Some(i) && manager.wallets@[i].status == WalletStatus::Active
                && signal.approved_quantity <= manager.wallets@[i].risk_limits.max_position_size),
            match r {
                Err(result) => old(self).counts(*final(self), result),
                Ok(_) => *final(self) == *old(self),
            },
    {
        proof {
            reveal_strlit("");
            assert(""@ =~= Seq::<char>::empty());
        }
        let routing = self.route_under(manager, envelopes, signal, exclude, elapsed_ms, now);
        let r = match routing {
            Err(RouteError::Halted) => Err(
                ExecutionResult::unfilled(
                    signal,
                    String::new(),
                    ExecutionStatus::Failed,
                    "halted",
                    now,
                ),
            ),
            Err(RouteError::NoSuitableWallet) => Err(
                ExecutionResult::unfilled(
                    signal,
                    String::new(),
                    ExecutionStatus::Failed,
                    "NoSuitableWallet",
                    now,
                ),
            ),
            Ok(routed) => {
                proof {
                    signal.lemma_notional_within_limit();
                }
                let notional = scaled_mul(
                    signal.approved_quantity,
                    signal.original_signal.target_price,
                );
                let outcome = envelopes.reserve(
                    manager,
                    routed.selected_wallet_id.as_str(),
                    signal.original_signal.symbol.as_str(),
                    signal.original_signal.strategy_type,
                    signal.original_signal.action,
                    notional,
                );
                match outcome {
                    Err(reason) => {
                        let text = refusal_text(reason);
                        Err(
                            ExecutionResult::unfilled(
                                signal,
                                String::new(),
                                ExecutionStatus::Failed,
                                text.as_str(),
                                now,
                            ),
                        )
                    },
                    Ok(token) => Ok((routed, token)),
                }
            },
        };
        assert(prepares(routing, *manager, *old(envelopes), *envelopes, *signal, now, r));
        match &r {
            Err(result) => {
                self.update_execution_stats(result);
            },
            Ok(_) => {},
        }
        r
    }

    /// Asks for the signing handle of the wallet that a prepared signal was
    /// routed to. A wallet that went out of service since then has the
    /// reservation released and the signal routed again, with that wallet
    /// added to those that are left out. A wallet without a handle has the
    /// reservation released and the signal failed, which is counted.
    pub fn confirm_handle(
        &mut self,
        manager: &WalletManager,
        envelopes: &mut EnvelopeState,
        routed: &RoutedSignal,
        token: u64,
        exclude: Vec<String>,
        now: i64,
    ) -> (r: HandleStep)
        requires
            old(envelopes).well_formed(),
        ensures
            final(envelopes).well_formed(),
            match handle_of(*manager, routed.selected_wallet_id@) {
                Ok(bytes) => {
                    &&& r matches HandleStep::Proceed(keypair)
                    &&& keypair_bytes(keypair) == bytes
                    &&& *final(envelopes) == *old(envelopes)
                    &&& *final(self) == *old(self)
                },
                Err(HandleError::WalletInactive) => {
                    &&& r matches HandleStep::RouteAgain(next)
                    &&& next@ == exclude@.push(routed.selected_wallet_id)
                    &&& old(envelopes).releases(*final(envelopes), token)
                    &&& *final(self) == *old(self)
                },
                Err(e) => {
                    &&& r matches HandleStep::Fail(result)
                    &&& result.is_unfilled(
                        routed.original_signal,
                        ""@,
                        ExecutionStatus::Failed,
                        handle_error_name(e),
                        now,
                    )
                    &&& old(envelopes).releases(*final(envelopes), token)
                    &&& old(self).counts(*final(self), result)
                },
            },
    {
        match self.fetch_signing_handle(manager, routed) {
            Ok(keypair) => HandleStep::Proceed(keypair),
            Err(HandleError::WalletInactive) => {
                envelopes.release(token);
                let mut next = exclude;
                next.push(routed.selected_wallet_id.clone());
                HandleStep::RouteAgain(next)
            },
            Err(e) => {
                proof {
                    reveal_strlit("");
                    assert(""@ =~= Seq::<char>::empty());
                }
                envelopes.release(token);
                let text = handle_error_text(e);
                let result = ExecutionResult::unfilled(
                    &routed.original_signal,
                    String::new(),
                    ExecutionStatus::Failed,
                    text.as_str(),
                    now,
                );
                self.update_execution_stats(&result);
                HandleStep::Fail(result)
            },
        }
    }

    /// Executes a prepared signal, applies the result to the envelopes
    /// under the token of the signal's reservation, and counts it. Nothing
    /// is executed with a wallet that is no longer active, or no longer in
    /// the registry: the result is then a failure that says so, and the
    /// reservation is released. Exactly one result comes back, under the
    /// signal's identifier; a confirmed one names a wallet that is active.
    pub fn settle_signal(
        &mut self,
        manager: &mut WalletManager,
        envelopes: &mut EnvelopeState,
        routed: &RoutedSignal,
        token: u64,
        answer: &Option<Result<HFTExecutionResult, HFTError>>,
        nonce: &str,
        now: i64,
    ) -> (r: ExecutionResult)
        requires
            old(manager).well_formed(),
            old(envelopes).well_formed(),
            routed.original_signal.well_formed(),
        ensures
            final(manager).well_formed(),
            final(envelopes).well_formed(),
            match out_of_service(*old(manager), routed.selected_wallet_id@) {
                None => is_result_in_mode(
                    r,
                    old(self).trading_mode,
                    old(self).hft_mode_enabled,
                    routed.original_signal,
                    *answer,
                    routed.selected_wallet_id@ + "_"@,
                    nonce@,
                    now,
                ),
                Some(e) => r.is_unfilled(
                    routed.original_signal,
                    ""@,
                    ExecutionStatus::Failed,
                    handle_error_name(e),
                    now,
                ),
            },
            r.status == ExecutionStatus::Confirmed ==> out_of_service(
                *old(manager),
                routed.selected_wallet_id@,
            ) is None,
            r.signal_id@ == routed.original_signal.original_signal.signal_id@,
            r.timestamp == now,
            r.well_formed(),
            exists|outcome: Applied| #[trigger]
                old(envelopes).applied(
                    *old(manager),
                    *final(envelopes),
                    *final(manager),
                    token,
                    r,
                    now,
                    outcome,
                ),
            old(self).counts(*final(self), r),
    {
        let stands = match manager.find_wallet(routed.selected_wallet_id.as_str()) {
            None => Some(HandleError::WalletNotFound),
            Some(i) => if manager.wallets[i].status != WalletStatus::Active {
                Some(HandleError::WalletInactive)
            } else {
                None
            },
        };
        let r = match stands {
            None => self.execute_routed_signal(routed, answer, nonce, now),
            Some(e) => {
                proof {
                    reveal_strlit("");
                    assert(""@ =~= Seq::<char>::empty());
                }
                let text = handle_error_text(e);
                ExecutionResult::unfilled(
                    &routed.original_signal,
                    String::new(),
                    ExecutionStatus::Failed,
                    text.as_str(),
                    now,
                )
            },
        };
        let outcome = envelopes.apply_result(manager, token, &r, now);
        assert(old(envelopes).applied(
            *old(manager),
            *envelopes,
            *manager,
            token,
            r,
            now,
            outcome,
        ));
        self.update_execution_stats(&r);
        r
    }

    /// The one result for `signal` after it was routed as `routing` says,
    /// counted in the statistics.
    pub fn complete_signal(
        &mut self,
        routing: Result<RoutedSignal, RouteError>,
        signal: &ApprovedSignal,
        answer: &Option<Result<HFTExecutionResult, HFTError>>,
        nonce: &str,
        now: i64,
    ) -> (r: ExecutionResult)
        requires
            routing matches Ok(routed) ==> routed.original_signal == *signal,
            signal.well_formed(),
        ensures
            old(self).completes(routing, *signal, *answer, nonce@, now, r),
            r.signal_id@ == signal.original_signal.signal_id@,
            r.timestamp == now,
            r.well_formed(),
            old(self).counts(*final(self), r),
    {
        proof {
            reveal_strlit("");
            assert(""@ =~= Seq::<char>::empty());
        }
        let result = match routing {
            Err(RouteError::Halted) => ExecutionResult::unfilled(
                signal,
                String::new(),
                ExecutionStatus::Failed,
                "halted",
                now,
            ),
            Err(RouteError::NoSuitableWallet) => ExecutionResult::unfilled(
                signal,
                String::new(),
                ExecutionStatus::Failed,
                "NoSuitableWallet",
                now,
            ),
            Ok(routed) => self.execute_routed_signal(&routed, answer, nonce, now),
        };
        self.update_execution_stats(&result);
        result
    }

    /// Routes and executes `signal` and counts the result: the signal is
    /// routed by its criteria with no wallet left out, and the result is the
    /// one that completes that routing. With the emergency halt set the
    /// result is a failure with the error `halted`. Exactly one result comes
    /// back, under the signal's identifier.
    pub fn process_signal_with(
        &mut self,
        manager: &WalletManager,
        halted: bool,
        signal: &ApprovedSignal,
        answer: &Option<Result<HFTExecutionResult, HFTError>>,
        elapsed_ms: u64,
        nonce: &str,
        now: i64,
    ) -> (r: ExecutionResult)
        requires
            manager.well_formed(),
            signal.well_formed(),
        ensures
            r.signal_id@ == signal.original_signal.signal_id@,
            r.timestamp == now,
            r.well_formed(),
            halted ==> r.is_unfilled(*signal, ""@, ExecutionStatus::Failed, "halted"@, now),
            old(self).processes(*manager, halted, *signal, *answer, elapsed_ms, nonce@, now, r),
            old(self).counts(*final(self), r),
    {
        let exclude: Vec<String> = Vec::new();
        assert(exclude@ =~= Seq::<String>::empty());
        let routing = self.route_signal(manager, halted, signal, exclude, elapsed_ms, now);
        assert(old(self).routes_at(
            *manager,
            halted,
            *signal,
            Seq::<String>::empty(),
            elapsed_ms,
            now,
            routing,
        ));
        let r = self.complete_signal(routing, signal, answer, nonce, now);
        assert(old(self).completes(routing, *signal, *answer, nonce@, now, r));
        r
    }

    /// Routes and executes `signal` as `process_signal_with` does, under a
    /// fresh identifier and at the time of the system clock. Exactly one
    /// result comes back, under the signal's identifier.
    pub fn process_signal(
        &mut self,
        manager: &WalletManager,
        halted: bool,
        signal: &ApprovedSignal,
        answer: &Option<Result<HFTExecutionResult, HFTError>>,
        elapsed_ms: u64,
    ) -> (r: ExecutionResult)
        requires
            manager.well_formed(),
            signal.well_formed(),
        ensures
            r.signal_id@ == signal.original_signal.signal_id@,
            r.well_formed(),
            halted ==> (r.status == ExecutionStatus::Failed && crate::text::text_of(
                r.error_message,
            ) == Some("halted"@)),
            exists|nonce: Seq<char>, now: i64|
                nonce.len() == 36 && #[trigger] old(self).processes(
                    *manager,
                    halted,
                    *signal,
                    *answer,
                    elapsed_ms,
                    nonce,
                    now,
                    r,
                ),
            old(self).counts(*final(self), r),
    {
        let nonce = new_uuid();
        let now = now_millis();
        let r = self.process_signal_with(
            manager,
            halted,
            signal,
            answer,
            elapsed_ms,
            nonce.as_str(),
            now,
        );
        assert(old(self).processes(
            *manager,
            halted,
            *signal,
            *answer,
            elapsed_ms,
            nonce@,
            now,
            r,
        ));
        r
    }
}

} // verus!
