//! Execution of approved signals by one wallet: paper fills, live fills,
//! and what an answer of the inference service changes in either.

use vstd::prelude::*;
use vstd::string::StringExecFns;
use crate::config::TradingMode;
use crate::fixed::{
    lemma_scaled_product_at_most, lemma_scaled_product_monotonic, scaled_mul, scaled_product,
    MAX_NOTIONAL, MAX_PRICE, SCALE,
};
use crate::modules::hft_engine::{
    error_message, error_text, falls_back, is_fallback, ExecutionResult as HFTExecutionResult,
    HFTConfig, HFTError, OvermindHFTEngine,
};
use crate::modules::risk::ApprovedSignal;
use crate::platform::{new_uuid, now_millis};
use crate::text::{same_text, text_of};

verus! {

/// How an execution ended.
#[derive(Debug, Clone, Copy, PartialEq, Eq, Structural, Hash)]
pub enum ExecutionStatus {
    Pending,
    Confirmed,
    Failed,
    Cancelled,
    Skipped,
}

/// The way an execution ended that a name stands for; none for any other
/// name.
pub open spec fn status_named(name: Seq<char>) -> Option<ExecutionStatus> {
    if name == "Pending"@ {
        Some(ExecutionStatus::Pending)
    } else if name == "Confirmed"@ {
        Some(ExecutionStatus::Confirmed)
    } else if name == "Failed"@ {
        Some(ExecutionStatus::Failed)
    } else if name == "Cancelled"@ {
        Some(ExecutionStatus::Cancelled)
    } else if name == "Skipped"@ {
        Some(ExecutionStatus::Skipped)
    } else {
        None
    }
}

/// The way an execution ended that `name` stands for.
pub fn parse_status(name: &str) -> (r: Option<ExecutionStatus>)
    ensures
        r == status_named(name@),
{
    if same_text(name, "Pending") {
        Some(ExecutionStatus::Pending)
    } else if same_text(name, "Confirmed") {
        Some(ExecutionStatus::Confirmed)
    } else if same_text(name, "Failed") {
        Some(ExecutionStatus::Failed)
    } else if same_text(name, "Cancelled") {
        Some(ExecutionStatus::Cancelled)
    } else if same_text(name, "Skipped") {
        Some(ExecutionStatus::Skipped)
    } else {
        None
    }
}

/// The outcome of executing one approved signal. Quantity, price and fees
/// are in millionths; the timestamp is in milliseconds since the Unix epoch.
#[derive(Debug)]
pub struct ExecutionResult {
    pub signal_id: String,
    pub transaction_id: String,
    pub status: ExecutionStatus,
    pub executed_quantity: u64,
    pub executed_price: u64,
    pub fees: u64,
    pub timestamp: i64,
    pub error_message: Option<String>,
}

impl Clone for ExecutionResult {
    fn clone(&self) -> (r: Self)
        ensures
            r.same_as(*self),
    {
        let error_message = match &self.error_message {
            Some(text) => Some(text.clone()),
            None => None,
        };
        ExecutionResult {
            signal_id: self.signal_id.clone(),
            transaction_id: self.transaction_id.clone(),
            status: self.status,
            executed_quantity: self.executed_quantity,
            executed_price: self.executed_price,
            fees: self.fees,
            timestamp: self.timestamp,
            error_message,
        }
    }
}

/// The fee, as a fraction of the traded value, of a paper fill.
pub const PAPER_FEE_RATE: u64 = 1_000;

/// The fee rate of a paper fill that the inference service confirmed.
pub const AI_PAPER_FEE_RATE: u64 = 500;

/// The fee rate of a live fill.
pub const LIVE_FEE_RATE: u64 = 2_500;

/// The fee rate of a live fill that went out as a bundle.
pub const AI_LIVE_FEE_RATE: u64 = 1_500;

/// The factor by which a live fill's price exceeds the target price.
pub const LIVE_SLIPPAGE: u64 = 1_005_000;

/// The factor by which the price of a live fill in a bundle exceeds the
/// target price.
pub const AI_LIVE_SLIPPAGE: u64 = 1_002_000;

impl ExecutionResult {
    /// A confirmed result carries a transaction identifier.
    pub open spec fn well_formed(&self) -> bool {
        self.status == ExecutionStatus::Confirmed ==> self.transaction_id@.len() > 0
    }

    /// Whether two results agree in every field, strings taken as texts.
    pub open spec fn same_as(&self, other: ExecutionResult) -> bool {
        &&& self.signal_id@ == other.signal_id@
        &&& self.transaction_id@ == other.transaction_id@
        &&& self.status == other.status
        &&& self.executed_quantity == other.executed_quantity
        &&& self.executed_price == other.executed_price
        &&& self.fees == other.fees
        &&& self.timestamp == other.timestamp
        &&& text_of(self.error_message) == text_of(other.error_message)
    }

    /// Whether the result is the confirmed fill of `signal` under the
    /// transaction identifier `transaction_id` at time `now`: the whole
    /// approved quantity, at the target price times `price_factor`, for a fee
    /// of `fee_rate` of the approved quantity's value at the target price.
    pub open spec fn is_fill(
        &self,
        signal: ApprovedSignal,
        transaction_id: Seq<char>,
        price_factor: u64,
        fee_rate: u64,
        now: i64,
    ) -> bool {
        &&& self.signal_id@ == signal.original_signal.signal_id@
        &&& self.transaction_id@ == transaction_id
        &&& self.status == ExecutionStatus::Confirmed
        &&& self.executed_quantity == signal.approved_quantity
        &&& self.executed_price as int == scaled_product(
            signal.original_signal.target_price as int,
            price_factor as int,
        )
        &&& self.fees as int == scaled_product(signal.notional(), fee_rate as int)
        &&& self.timestamp == now
        &&& self.error_message is None
    }

    /// Whether the result says that `signal` was not executed: nothing
    /// filled, no fee, the status `status` and the error text `error`.
    pub open spec fn is_unfilled(
        &self,
        signal: ApprovedSignal,
        transaction_id: Seq<char>,
        status: ExecutionStatus,
        error: Seq<char>,
        now: i64,
    ) -> bool {
        &&& self.signal_id@ == signal.original_signal.signal_id@
        &&& self.transaction_id@ == transaction_id
        &&& self.status == status
        &&& self.executed_quantity == 0
        &&& self.executed_price == 0
        &&& self.fees == 0
        &&& self.timestamp == now
        &&& text_of(self.error_message) == Some(error)
    }

    /// The confirmed fill of `signal` under `transaction_id` at time `now`.
    pub fn fill(
        signal: &ApprovedSignal,
        transaction_id: String,
        price_factor: u64,
        fee_rate: u64,
        now: i64,
    ) -> (r: Self)
        requires
            signal.well_formed(),
            price_factor <= 2 * SCALE,
            fee_rate <= SCALE,
        ensures
            r.is_fill(*signal, transaction_id@, price_factor, fee_rate, now),
            transaction_id@.len() > 0 ==> r.well_formed(),
    {
        let price = signal.original_signal.target_price;
        proof {
            signal.lemma_notional_within_limit();
            lemma_scaled_product_monotonic(
                price as int,
                MAX_PRICE as int,
                price_factor as int,
                2 * SCALE as int,
            );
            assert((1_000_000_000_000_000_000int * 2_000_000) / 1_000_000
                == 2_000_000_000_000_000_000int) by (nonlinear_arith);
            lemma_scaled_product_at_most(signal.notional(), fee_rate as int);
        }
        let notional = scaled_mul(signal.approved_quantity, price);
        ExecutionResult {
            signal_id: signal.original_signal.signal_id.clone(),
            transaction_id,
            status: ExecutionStatus::Confirmed,
            executed_quantity: signal.approved_quantity,
            executed_price: scaled_mul(price, price_factor),
            fees: scaled_mul(notional, fee_rate),
            timestamp: now,
            error_message: None,
        }
    }

    /// The result that says that `signal` was not executed.
    pub fn unfilled(
        signal: &ApprovedSignal,
        transaction_id: String,
        status: ExecutionStatus,
        error: &str,
        now: i64,
    ) -> (r: Self)
        requires
            status != ExecutionStatus::Confirmed,
        ensures
            r.is_unfilled(*signal, transaction_id@, status, error@, now),
            r.well_formed(),
    {
        ExecutionResult {
            signal_id: signal.original_signal.signal_id.clone(),
            transaction_id,
            status,
            executed_quantity: 0,
            executed_price: 0,
            fees: 0,
            timestamp: now,
            error_message: Some(String::from_str(error)),
        }
    }
}

/// `prefix` followed by `rest`.
pub fn prefixed(prefix: &str, rest: &str) -> (r: String)
    ensures
        r@ == prefix@ + rest@,
{
    String::from_str(prefix).concat(rest)
}

/// What an executor reads in the answer of the inference engine.
pub open spec fn outcome_kind(answer: Option<Result<HFTExecutionResult, HFTError>>) -> int {
    match answer {
        Some(Ok(HFTExecutionResult::Executed { .. })) => 0,
        Some(Ok(HFTExecutionResult::Skipped { .. })) => 1,
        _ => 2,
    }
}

/// Whether `r` is the paper fill of `signal`: confirmed at the target price
/// for a fee of 0.1%, under the identifier made of `prefix`, `paper_` and
/// `nonce`.
pub open spec fn is_paper_result(
    r: ExecutionResult,
    signal: ApprovedSignal,
    prefix: Seq<char>,
    nonce: Seq<char>,
    now: i64,
) -> bool {
    r.is_fill(signal, prefix + "paper_"@ + nonce, SCALE, PAPER_FEE_RATE, now)
}

/// Whether `r` is the live result for `signal`: confirmed at the target
/// price raised by 0.5% for a fee of 0.25%, under the identifier made of
/// `prefix` and `nonce`; or, with an empty `nonce`, a failure that says so.
pub open spec fn is_live_result(
    r: ExecutionResult,
    signal: ApprovedSignal,
    prefix: Seq<char>,
    nonce: Seq<char>,
    now: i64,
) -> bool {
    if nonce.len() > 0 {
        r.is_fill(signal, prefix + nonce, LIVE_SLIPPAGE, LIVE_FEE_RATE, now)
    } else {
        r.is_unfilled(signal, prefix, ExecutionStatus::Failed, "missing transaction id"@, now)
    }
}

/// Whether `r` is the paper result for `signal` after the inference engine
/// answered `answer`: where the engine executed, confirmed at the target
/// price for a fee of 0.05%, under the identifier made of `prefix`,
/// `ai_paper_` and `nonce`; in every other case the plain paper fill.
pub open spec fn is_ai_paper_result(
    r: ExecutionResult,
    signal: ApprovedSignal,
    answer: Option<Result<HFTExecutionResult, HFTError>>,
    prefix: Seq<char>,
    nonce: Seq<char>,
    now: i64,
) -> bool {
    if outcome_kind(answer) == 0 {
        r.is_fill(signal, prefix + "ai_paper_"@ + nonce, SCALE, AI_PAPER_FEE_RATE, now)
    } else {
        is_paper_result(r, signal, prefix, nonce, now)
    }
}

/// Whether `r` is the live result for `signal` after the inference engine
/// answered `answer`. Where the engine sent a bundle with an identifier:
/// confirmed at the target price raised by 0.2% for a fee of 0.15%, under
/// `prefix` and the bundle's identifier. Where the engine declined for want
/// of confidence: skipped, nothing filled, with an error that names the
/// confidence. Where the engine failed after the inference call: failed,
/// nothing filled, with the error of the engine. In every other case, that
/// is without an engine or after a failure of the inference call itself, the
/// plain live result under `nonce`.
pub open spec fn is_ai_live_result(
    r: ExecutionResult,
    signal: ApprovedSignal,
    answer: Option<Result<HFTExecutionResult, HFTError>>,
    prefix: Seq<char>,
    nonce: Seq<char>,
    now: i64,
) -> bool {
    match answer {
        Some(Ok(HFTExecutionResult::Executed { bundle_id, .. })) => if bundle_id@.len() > 0 {
            r.is_fill(signal, prefix + bundle_id@, AI_LIVE_SLIPPAGE, AI_LIVE_FEE_RATE, now)
        } else {
            r.is_unfilled(signal, prefix, ExecutionStatus::Failed, "missing transaction id"@, now)
        },
        Some(Ok(HFTExecutionResult::Skipped { .. })) => r.is_unfilled(
            signal,
            prefix,
            ExecutionStatus::Skipped,
            "AI confidence below threshold"@,
            now,
        ),
        Some(Ok(HFTExecutionResult::Failed { error, .. })) => r.is_unfilled(
            signal,
            prefix,
            ExecutionStatus::Failed,
            error@,
            now,
        ),
        Some(Err(e)) => if falls_back(e) {
            is_live_result(r, signal, prefix, nonce, now)
        } else {
            r.is_unfilled(signal, prefix, ExecutionStatus::Failed, error_message(e), now)
        },
        None => is_live_result(r, signal, prefix, nonce, now),
    }
}

/// Whether `r` is the result for `signal` in the given mode, with or without
/// the inference engine, under an identifier that begins with `prefix`.
pub open spec fn is_result_in_mode(
    r: ExecutionResult,
    trading_mode: TradingMode,
    hft_mode_enabled: bool,
    signal: ApprovedSignal,
    answer: Option<Result<HFTExecutionResult, HFTError>>,
    prefix: Seq<char>,
    nonce: Seq<char>,
    now: i64,
) -> bool {
    match (trading_mode, hft_mode_enabled) {
        (TradingMode::Paper, false) => is_paper_result(r, signal, prefix, nonce, now),
        (TradingMode::Paper, true) => is_ai_paper_result(r, signal, answer, prefix, nonce, now),
        (TradingMode::Live, false) => is_live_result(r, signal, prefix, nonce, now),
        (TradingMode::Live, true) => is_ai_live_result(r, signal, answer, prefix, nonce, now),
    }
}

/// The paper fill of `signal`.
pub fn paper_trade(signal: &ApprovedSignal, prefix: &str, nonce: &str, now: i64) -> (r:
    ExecutionResult)
    requires
        signal.well_formed(),
    ensures
        is_paper_result(r, *signal, prefix@, nonce@, now),
        r.well_formed(),
{
    proof {
        reveal_strlit("paper_");
    }
    let id = String::from_str(prefix).concat("paper_").concat(nonce);
    ExecutionResult::fill(signal, id, SCALE, PAPER_FEE_RATE, now)
}

/// The live result for `signal`.
pub fn live_trade(signal: &ApprovedSignal, prefix: &str, nonce: &str, now: i64) -> (r:
    ExecutionResult)
    requires
        signal.well_formed(),
    ensures
        is_live_result(r, *signal, prefix@, nonce@, now),
        r.well_formed(),
{
    if nonce.unicode_len() == 0 {
        ExecutionResult::unfilled(
            signal,
            String::from_str(prefix),
            ExecutionStatus::Failed,
            "missing transaction id",
            now,
        )
    } else {
        ExecutionResult::fill(signal, prefixed(prefix, nonce), LIVE_SLIPPAGE, LIVE_FEE_RATE, now)
    }
}

/// The paper result for `signal` after the inference engine answered
/// `answer`.
pub fn ai_paper_trade(
    signal: &ApprovedSignal,
    answer: &Option<Result<HFTExecutionResult, HFTError>>,
    prefix: &str,
    nonce: &str,
    now: i64,
) -> (r: ExecutionResult)
    requires
        signal.well_formed(),
    ensures
        is_ai_paper_result(r, *signal, *answer, prefix@, nonce@, now),
        r.well_formed(),
{
    match answer {
        Some(Ok(HFTExecutionResult::Executed { .. })) => {
            proof {
                reveal_strlit("ai_paper_");
            }
            let id = String::from_str(prefix).concat("ai_paper_").concat(nonce);
            ExecutionResult::fill(signal, id, SCALE, AI_PAPER_FEE_RATE, now)
        },
        _ => paper_trade(signal, prefix, nonce, now),
    }
}

/// The live result for `signal` after the inference engine answered
/// `answer`.
pub fn ai_live_trade(
    signal: &ApprovedSignal,
    answer: &Option<Result<HFTExecutionResult, HFTError>>,
    prefix: &str,
    nonce: &str,
    now: i64,
) -> (r: ExecutionResult)
    requires
        signal.well_formed(),
    ensures
        is_ai_live_result(r, *signal, *answer, prefix@, nonce@, now),
        r.well_formed(),
{
    match answer {
        Some(Ok(HFTExecutionResult::Executed { bundle_id, .. })) => {
            if bundle_id.as_str().unicode_len() == 0 {
                ExecutionResult::unfilled(
                    signal,
                    String::from_str(prefix),
                    ExecutionStatus::Failed,
                    "missing transaction id",
                    now,
                )
            } else {
                ExecutionResult::fill(
                    signal,
                    prefixed(prefix, bundle_id.as_str()),
                    AI_LIVE_SLIPPAGE,
                    AI_LIVE_FEE_RATE,
                    now,
                )
            }
        },
        Some(Ok(HFTExecutionResult::Skipped { .. })) => ExecutionResult::unfilled(
            signal,
            String::from_str(prefix),
            ExecutionStatus::Skipped,
            "AI confidence below threshold",
            now,
        ),
        Some(Ok(HFTExecutionResult::Failed { error, .. })) => ExecutionResult::unfilled(
            signal,
            String::from_str(prefix),
            ExecutionStatus::Failed,
            error.as_str(),
            now,
        ),
        Some(Err(e)) => {
            if is_fallback(*e) {
                live_trade(signal, prefix, nonce, now)
            } else {
                let text = error_text(*e);
                ExecutionResult::unfilled(
                    signal,
                    String::from_str(prefix),
                    ExecutionStatus::Failed,
                    text.as_str(),
                    now,
                )
            }
        },
        None => live_trade(signal, prefix, nonce, now),
    }
}

/// The result for `signal` in the given mode. Exactly one result comes back
/// for the signal, under the signal's identifier.
pub fn trade_in_mode(
    trading_mode: TradingMode,
    hft_mode_enabled: bool,
    signal: &ApprovedSignal,
    answer: &Option<Result<HFTExecutionResult, HFTError>>,
    prefix: &str,
    nonce: &str,
    now: i64,
) -> (r: ExecutionResult)
    requires
        signal.well_formed(),
    ensures
        is_result_in_mode(
            r,
            trading_mode,
            hft_mode_enabled,
            *signal,
            *answer,
            prefix@,
            nonce@,
            now,
        ),
        r.signal_id@ == signal.original_signal.signal_id@,
        r.timestamp == now,
        r.well_formed(),
{
    match (trading_mode, hft_mode_enabled) {
        (TradingMode::Paper, false) => paper_trade(signal, prefix, nonce, now),
        (TradingMode::Paper, true) => ai_paper_trade(signal, answer, prefix, nonce, now),
        (TradingMode::Live, false) => live_trade(signal, prefix, nonce, now),
        (TradingMode::Live, true) => ai_live_trade(signal, answer, prefix, nonce, now),
    }
}

/// Executes approved signals with one wallet, on paper or live, with or
/// without the inference engine.
#[derive(Debug)]
pub struct Executor {
    pub trading_mode: TradingMode,
    pub solana_rpc_url: String,
    pub wallet_private_key: String,
    pub is_running: bool,
    pub hft_engine: Option<OvermindHFTEngine>,
    pub hft_mode_enabled: bool,
}

impl Executor {
    /// An executor without the inference engine, not running.
    pub fn new(trading_mode: TradingMode, solana_rpc_url: String, wallet_private_key: String) -> (r:
        Self)
        ensures
            r.trading_mode == trading_mode,
            r.solana_rpc_url == solana_rpc_url,
            r.wallet_private_key == wallet_private_key,
            !r.is_running,
            r.hft_engine is None,
            !r.hft_mode_enabled,
    {
        Executor {
            trading_mode,
            solana_rpc_url,
            wallet_private_key,
            is_running: false,
            hft_engine: None,
            hft_mode_enabled: false,
        }
    }

    /// An executor with the inference engine that `hft_config` describes,
    /// not running; or the error that the configuration gives.
    pub fn new_with_hft(
        trading_mode: TradingMode,
        solana_rpc_url: String,
        wallet_private_key: String,
        hft_config: HFTConfig,
    ) -> (r: Result<Self, HFTError>)
        ensures
            r is Ok <==> hft_config.valid(),
            r matches Err(e) ==> e == HFTError::InvalidConfig,
            r matches Ok(executor) ==> {
                &&& executor.trading_mode == trading_mode
                &&& executor.solana_rpc_url == solana_rpc_url
                &&& executor.wallet_private_key == wallet_private_key
                &&& !executor.is_running
                &&& executor.hft_mode_enabled
                &&& executor.hft_engine matches Some(engine)
                &&& engine.config == hft_config
                &&& engine.metrics.is_fresh()
            },
    {
        match OvermindHFTEngine::new(hft_config) {
            Ok(engine) => Ok(
                Executor {
                    trading_mode,
                    solana_rpc_url,
                    wallet_private_key,
                    is_running: false,
                    hft_engine: Some(engine),
                    hft_mode_enabled: true,
                },
            ),
            Err(e) => Err(e),
        }
    }

    /// Marks the executor as running.
    pub fn start(&mut self)
        ensures
            *final(self) == (Executor { is_running: true, ..*old(self) }),
    {
        self.is_running = true;
    }

    /// Marks the executor as stopped.
    pub fn stop(&mut self)
        ensures
            *final(self) == (Executor { is_running: false, ..*old(self) }),
    {
        self.is_running = false;
    }

    /// The paper fill of `signal`: confirmed at the target price for a fee
    /// of 0.1%, under the identifier `paper_` followed by `nonce`.
    pub fn execute_paper_trade(&self, signal: &ApprovedSignal, nonce: &str, now: i64) -> (r:
        ExecutionResult)
        requires
            signal.well_formed(),
        ensures
            is_paper_result(r, *signal, ""@, nonce@, now),
            r.well_formed(),
    {
        paper_trade(signal, "", nonce, now)
    }

    /// The live result for `signal`: confirmed at the target price raised
    /// by 0.5% for a fee of 0.25%, under the identifier `nonce`; or, with an
    /// empty `nonce`, a failure that says so.
    pub fn execute_live_trade(&self, signal: &ApprovedSignal, nonce: &str, now: i64) -> (r:
        ExecutionResult)
        requires
            signal.well_formed(),
        ensures
            is_live_result(r, *signal, ""@, nonce@, now),
            r.well_formed(),
    {
        live_trade(signal, "", nonce, now)
    }

    /// The paper result for `signal` after the inference engine answered
    /// `answer`: where the engine executed, confirmed at the target price for
    /// a fee of 0.05%, under the identifier `ai_paper_` followed by `nonce`;
    /// in every other case the plain paper fill.
    pub fn execute_ai_paper_trade(
        &self,
        signal: &ApprovedSignal,
        answer: &Option<Result<HFTExecutionResult, HFTError>>,
        nonce: &str,
        now: i64,
    ) -> (r: ExecutionResult)
        requires
            signal.well_formed(),
        ensures
            is_ai_paper_result(r, *signal, *answer, ""@, nonce@, now),
            r.well_formed(),
    {
        ai_paper_trade(signal, answer, "", nonce, now)
    }

    /// The live result for `signal` after the inference engine answered
    /// `answer`. Where the engine sent a bundle with an identifier: confirmed
    /// at the target price raised by 0.2% for a fee of 0.15%, under the
    /// bundle's identifier. Where the engine declined for want of
    /// confidence: skipped, nothing filled, with an error that names the
    /// confidence. Where the engine failed after the inference call: failed,
    /// with the error of the engine. In every other case the plain live
    /// result under `nonce`.
    pub fn execute_ai_live_trade(
        &self,
        signal: &ApprovedSignal,
        answer: &Option<Result<HFTExecutionResult, HFTError>>,
        nonce: &str,
        now: i64,
    ) -> (r: ExecutionResult)
        requires
            signal.well_formed(),
        ensures
            is_ai_live_result(r, *signal, *answer, ""@, nonce@, now),
            r.well_formed(),
    {
        ai_live_trade(signal, answer, "", nonce, now)
    }

    /// The result for `signal` in the executor's mode, given the answer of
    /// the inference engine where the executor has one. Exactly one result
    /// comes back for the signal, under the signal's identifier.
    pub fn execute_signal_with(
        &self,
        signal: &ApprovedSignal,
        answer: &Option<Result<HFTExecutionResult, HFTError>>,
        nonce: &str,
        now: i64,
    ) -> (r: ExecutionResult)
        requires
            signal.well_formed(),
        ensures
            r.signal_id@ == signal.original_signal.signal_id@,
            r.timestamp == now,
            r.well_formed(),
            is_result_in_mode(
                r,
                self.trading_mode,
                self.hft_mode_enabled,
                *signal,
                *answer,
                ""@,
                nonce@,
                now,
            ),
    {
        trade_in_mode(self.trading_mode, self.hft_mode_enabled, signal, answer, "", nonce, now)
    }

    /// The result for `signal` in the executor's mode, under a fresh
    /// identifier and at the time of the system clock. Exactly one result
    /// comes back for the signal, under the signal's identifier.
    pub fn execute_signal(
        &self,
        signal: &ApprovedSignal,
        answer: &Option<Result<HFTExecutionResult, HFTError>>,
    ) -> (r: ExecutionResult)
        requires
            signal.well_formed(),
        ensures
            r.signal_id@ == signal.original_signal.signal_id@,
            r.well_formed(),
            exists|nonce: Seq<char>, now: i64|
                nonce.len() == 36 && #[trigger] is_result_in_mode(
                    r,
                    self.trading_mode,
                    self.hft_mode_enabled,
                    *signal,
                    *answer,
                    ""@,
                    nonce,
                    now,
                ),
    {
        let nonce = new_uuid();
        let now = now_millis();
        let r = self.execute_signal_with(signal, answer, nonce.as_str(), now);
        assert(is_result_in_mode(
            r,
            self.trading_mode,
            self.hft_mode_enabled,
            *signal,
            *answer,
            ""@,
            nonce@,
            now,
        ));
        r
    }
}

} // verus!
