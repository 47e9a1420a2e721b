use snipercor::config::TradingMode;
use snipercor::modules::envelope::{day_number, Applied, EnvelopeState, ReserveRejection};
use snipercor::modules::executor::{ExecutionResult, ExecutionStatus};
use snipercor::modules::multi_wallet_executor::{HandleStep, MultiWalletExecutor, RouteError};
use snipercor::modules::risk::ApprovedSignal;
use snipercor::modules::strategy::{StrategyType, TradeAction, TradingSignal};
use snipercor::modules::wallet_manager::{
    WalletConfig, WalletConfigBuilder, WalletManager, WalletMetrics, WalletRiskLimits,
    WalletSelectionCriteria, WalletStatus, WalletType,
};
use solana_sdk::signature::Keypair;

fn micros(x: f64) -> u64 {
    (x * 1_000_000.0).round() as u64
}

fn limits() -> WalletRiskLimits {
    WalletRiskLimits {
        max_daily_loss: micros(30.0),
        max_position_size: micros(1000.0),
        max_concurrent_positions: 3,
        max_exposure_percentage: micros(50.0),
        stop_loss_threshold: micros(5.0),
        daily_trade_limit: 4,
    }
}

fn wallet(id: &str) -> WalletConfig {
    WalletConfigBuilder::new_at(id.to_string(), id.to_string(), Keypair::new().to_base58_string(), 0)
        .unwrap()
        .wallet_type(WalletType::Primary)
        .risk_limits(limits())
        .add_strategy_allocation(StrategyType::MomentumTrading, micros(100.0), micros(1000.0))
        .build()
}

fn fleet(ids: &[&str]) -> WalletManager {
    let mut manager = WalletManager::new();
    manager.initialize(ids.iter().map(|id| wallet(id)).collect()).unwrap();
    for id in ids {
        let mut m = WalletMetrics::empty(id.to_string(), 0);
        m.sol_balance = micros(10_000.0);
        m.total_value_usd = micros(10_000.0);
        manager.update_wallet_metrics(m);
    }
    manager
}

fn confirmed(quantity: f64, price: f64, fees: f64, at: i64) -> ExecutionResult {
    ExecutionResult {
        signal_id: "s".to_string(),
        transaction_id: "tx".to_string(),
        status: ExecutionStatus::Confirmed,
        executed_quantity: micros(quantity),
        executed_price: micros(price),
        fees: micros(fees),
        timestamp: at,
        error_message: None,
    }
}

fn reserve(state: &mut EnvelopeState, manager: &WalletManager, id: &str, notional: f64) -> Result<u64, ReserveRejection> {
    state.reserve(manager, id, "SOL/USDC", StrategyType::MomentumTrading, TradeAction::Buy, micros(notional))
}

#[test]
fn reservations_add_up_against_the_exposure() {
    let manager = fleet(&["a"]);
    let mut state = EnvelopeState::new(micros(0.5), 0);
    // The limit is 50% of 10000.
    assert_eq!(reserve(&mut state, &manager, "a", 3000.0), Ok(0));
    assert_eq!(reserve(&mut state, &manager, "a", 2000.0), Ok(1));
    assert_eq!(reserve(&mut state, &manager, "a", 0.000001), Err(ReserveRejection::ExposureBreached));
    assert_eq!(state.reserved("a"), (micros(5000.0), 2));
    assert_eq!(state.reserved("b"), (0, 0));
    assert_eq!(state.reservations.len(), 2);
    assert_eq!(reserve(&mut state, &manager, "nobody", 1.0), Err(ReserveRejection::UnknownWallet));
}

#[test]
fn release_is_idempotent() {
    let manager = fleet(&["a"]);
    let mut state = EnvelopeState::new(micros(0.5), 0);
    let token = reserve(&mut state, &manager, "a", 5000.0).unwrap();
    assert_eq!(reserve(&mut state, &manager, "a", 1.0), Err(ReserveRejection::ExposureBreached));
    state.release(token);
    assert_eq!(state.reserved("a"), (0, 0));
    let once: Vec<(u64, bool)> = state.reservations.iter().map(|r| (r.token, r.active)).collect();
    state.release(token);
    state.release(token);
    let thrice: Vec<(u64, bool)> = state.reservations.iter().map(|r| (r.token, r.active)).collect();
    assert_eq!(once, thrice);
    assert_eq!(state.next_token, 1);
    // A token that was never given changes nothing either.
    state.release(99);
    assert_eq!(state.reserved("a"), (0, 0));
    assert_eq!(reserve(&mut state, &manager, "a", 5000.0), Ok(1));
}

#[test]
fn position_count_and_trade_cap_are_enforced() {
    let mut manager = fleet(&["a"]);
    let mut state = EnvelopeState::new(micros(0.5), 0);
    for expected in 0..3u64 {
        assert_eq!(reserve(&mut state, &manager, "a", 1.0), Ok(expected));
    }
    assert_eq!(reserve(&mut state, &manager, "a", 1.0), Err(ReserveRejection::PositionCountBreached));
    state.release(0);
    state.release(1);
    state.release(2);
    manager.wallet_metrics[0].trade_count_today = 4;
    assert_eq!(reserve(&mut state, &manager, "a", 1.0), Err(ReserveRejection::TradeCapBreached));
    manager.wallet_metrics[0].trade_count_today = 3;
    manager.wallet_metrics[0].daily_pnl = -(micros(30.0) as i64);
    assert_eq!(reserve(&mut state, &manager, "a", 1.0), Err(ReserveRejection::DailyLossBreached));
    manager.wallet_metrics[0].daily_pnl = -(micros(30.0) as i64) + 1;
    assert!(reserve(&mut state, &manager, "a", 1.0).is_ok());
    state.next_token = u64::MAX;
    assert_eq!(reserve(&mut state, &manager, "a", 1.0), Err(ReserveRejection::TokensExhausted));
}

#[test]
fn confirmed_result_shows_in_the_snapshot() {
    let mut manager = fleet(&["a"]);
    let mut state = EnvelopeState::new(micros(0.9), 0);
    let token = reserve(&mut state, &manager, "a", 1000.0).unwrap();
    let outcome = state.apply_result(&mut manager, token, &confirmed(10.0, 100.0, 1.0, 50), 60);
    assert_eq!(outcome, Applied::Converted);
    let (shown, wallet_limits) = state.snapshot(&manager, "a").unwrap();
    assert_eq!(wallet_limits, limits());
    assert_eq!(shown.trade_count_today, 1);
    assert_eq!(shown.daily_pnl, -1_000_000);
    assert_eq!(shown.total_pnl, -1_000_000);
    assert_eq!(shown.last_trade_time, Some(50));
    assert_eq!(shown.updated_at, 60);
    // A position of 1000 against a limit of 5000 is 20%.
    assert_eq!(shown.risk_utilization, micros(20.0));
    assert_eq!(state.exposure(&manager, "a"), micros(1000.0));
    assert_eq!(state.open_positions(&manager, "a"), 1);
    assert_eq!(state.reserved("a"), (0, 0));
    assert_eq!(manager.active_positions.len(), 1);
    let position = &manager.active_positions[0];
    assert_eq!(position.position_id, "tx");
    assert_eq!(position.wallet_id, "a");
    assert_eq!(position.symbol, "SOL/USDC");
    assert_eq!(position.action, TradeAction::Buy);
    assert_eq!(position.quantity, micros(10.0));
    assert_eq!(position.entry_price, micros(100.0));
    // The same result applied again finds no reservation.
    let again = state.apply_result(&mut manager, token, &confirmed(10.0, 100.0, 1.0, 50), 61);
    assert_eq!(again, Applied::NoReservation);
    assert_eq!(state.snapshot(&manager, "a").unwrap().0.trade_count_today, 1);
    assert!(state.snapshot(&manager, "zz").is_none());
}

#[test]
fn unconfirmed_results_release_or_wait() {
    let mut manager = fleet(&["a"]);
    let mut state = EnvelopeState::new(micros(0.9), 0);
    let token = reserve(&mut state, &manager, "a", 1000.0).unwrap();
    let mut pending = confirmed(1.0, 1.0, 1.0, 1);
    pending.status = ExecutionStatus::Pending;
    assert_eq!(state.apply_result(&mut manager, token, &pending, 2), Applied::StillPending);
    assert_eq!(state.reserved("a"), (micros(1000.0), 1));
    let mut failed = confirmed(0.0, 0.0, 0.0, 1);
    failed.status = ExecutionStatus::Failed;
    assert_eq!(state.apply_result(&mut manager, token, &failed, 2), Applied::Released);
    assert_eq!(state.reserved("a"), (0, 0));
    assert!(manager.active_positions.is_empty());
    assert_eq!(manager.wallet_metrics[0].trade_count_today, 0);
    for status in [ExecutionStatus::Cancelled, ExecutionStatus::Skipped] {
        let token = reserve(&mut state, &manager, "a", 1.0).unwrap();
        let mut result = confirmed(0.0, 0.0, 0.0, 1);
        result.status = status;
        assert_eq!(state.apply_result(&mut manager, token, &result, 2), Applied::Released);
    }
}

#[test]
fn daily_loss_halts_one_wallet_and_then_the_engine() {
    let mut manager = fleet(&["a", "b"]);
    let mut state = EnvelopeState::new(micros(0.5), 0);
    // Wallet a loses 10 in fees on each of three trades; its limit is 30.
    for trade in 1..=3 {
        let token = reserve(&mut state, &manager, "a", 10.0).unwrap();
        assert_eq!(
            state.apply_result(&mut manager, token, &confirmed(1.0, 10.0, 10.0, trade), trade),
            Applied::Converted
        );
        if trade < 3 {
            assert_eq!(manager.wallets[0].status, WalletStatus::Active);
            assert!(!state.halted);
        }
    }
    assert_eq!(manager.wallets[0].status, WalletStatus::Emergency);
    assert_eq!(manager.wallets[1].status, WalletStatus::Active);
    // One of two wallets in emergency mode meets the threshold of a half.
    assert!(state.halted);
    assert_eq!(reserve(&mut state, &manager, "a", 1.0), Err(ReserveRejection::DailyLossBreached));
    // The router no longer picks the wallet.
    let criteria = WalletSelectionCriteria {
        strategy_type: StrategyType::MomentumTrading,
        position_size: 0,
        required_balance: 0,
        risk_tolerance: 0,
        preferred_wallet_type: None,
        exclude_wallets: vec!["b".to_string()],
    };
    assert!(manager.select_wallet(&criteria).is_err());
    // An operator clears the wallet and the halt.
    manager.reactivate_wallet("a").unwrap();
    state.clear_halt();
    assert!(!state.halted);
    assert_eq!(manager.select_wallet(&criteria).unwrap().wallet_id, "a");
}

#[test]
fn recorded_losses_are_held_to_the_limit_too() {
    let mut manager = fleet(&["a", "b", "c"]);
    let mut state = EnvelopeState::new(micros(0.5), 0);
    assert!(state.record_pnl(&mut manager, "a", -29_999_999, 9));
    assert_eq!(manager.wallets[0].status, WalletStatus::Active);
    assert!(state.record_pnl(&mut manager, "a", -1, 10));
    assert_eq!(manager.wallet_metrics[0].daily_pnl, -30_000_000);
    assert_eq!(manager.wallet_metrics[0].updated_at, 10);
    assert_eq!(manager.wallets[0].status, WalletStatus::Emergency);
    // One of three is below the threshold of a half.
    assert!(!state.halted);
    assert!(state.record_pnl(&mut manager, "b", i64::MIN, 11));
    assert!(state.record_pnl(&mut manager, "b", i64::MIN, 11));
    assert_eq!(manager.wallet_metrics[1].daily_pnl, i64::MIN);
    assert!(state.halted);
    assert!(!state.record_pnl(&mut manager, "zz", 1, 12));
}

#[test]
fn calendar_resets_the_daily_counters_once_a_day() {
    let mut manager = fleet(&["a", "b"]);
    let mut state = EnvelopeState::new(micros(0.9), 86_399_999);
    assert_eq!(state.current_day, 0);
    manager.wallet_metrics[0].daily_pnl = -5;
    manager.wallet_metrics[0].total_pnl = -5;
    manager.wallet_metrics[0].trade_count_today = 3;
    manager.wallet_metrics[1].trade_count_today = 1;
    assert!(!state.tick_calendar(&mut manager, 86_399_999));
    assert_eq!(manager.wallet_metrics[0].trade_count_today, 3);
    assert!(state.tick_calendar(&mut manager, 86_400_000));
    assert_eq!(state.current_day, 1);
    assert_eq!(manager.wallet_metrics[0].daily_pnl, 0);
    assert_eq!(manager.wallet_metrics[0].total_pnl, -5);
    assert_eq!(manager.wallet_metrics[0].trade_count_today, 0);
    assert_eq!(manager.wallet_metrics[1].trade_count_today, 0);
    manager.wallet_metrics[0].trade_count_today = 2;
    // A second call on the same day, or with an earlier time, changes nothing.
    assert!(!state.tick_calendar(&mut manager, 86_400_001));
    assert!(!state.tick_calendar(&mut manager, 5));
    assert_eq!(manager.wallet_metrics[0].trade_count_today, 2);
    assert_eq!(state.current_day, 1);
}

#[test]
fn days_are_counted_from_the_epoch_in_utc() {
    assert_eq!(day_number(0), 0);
    assert_eq!(day_number(86_399_999), 0);
    assert_eq!(day_number(86_400_000), 1);
    assert_eq!(day_number(-1), -1);
    assert_eq!(day_number(-86_400_000), -1);
    assert_eq!(day_number(-86_400_001), -2);
    assert_eq!(day_number(i64::MIN), -106_751_991_168);
    assert_eq!(day_number(i64::MAX), 106_751_991_167);
}

#[test]
fn halted_envelopes_route_nothing() {
    let manager = fleet(&["a"]);
    let mut state = EnvelopeState::new(micros(0.5), 0);
    let executor = MultiWalletExecutor::new(
        TradingMode::Paper,
        "rpc".to_string(),
        5000,
        Some("a".to_string()),
    );
    let signal = ApprovedSignal {
        original_signal: TradingSignal {
            signal_id: "s".to_string(),
            symbol: "SOL/USDC".to_string(),
            action: TradeAction::Buy,
            quantity: micros(1.0),
            target_price: micros(1.0),
            confidence: micros(0.9),
            timestamp: 0,
            strategy_type: StrategyType::MomentumTrading,
        },
        approved_quantity: micros(1.0),
        risk_score: 0,
        approval_timestamp: 0,
    };
    assert!(executor.route_under(&manager, &state, &signal, Vec::new(), 0, 1).is_ok());
    state.halted = true;
    assert_eq!(
        executor.route_under(&manager, &state, &signal, Vec::new(), 0, 1).unwrap_err(),
        RouteError::Halted
    );
    state.clear_halt();
    assert_eq!(
        executor.route_under(&manager, &state, &signal, Vec::new(), 0, 1).unwrap().selected_wallet_id,
        "a"
    );
}

#[test]
fn closing_a_position_realizes_its_gain() {
    let mut manager = fleet(&["a", "b"]);
    let mut state = EnvelopeState::new(micros(0.9), 0);
    let token = reserve(&mut state, &manager, "a", 1000.0).unwrap();
    state.apply_result(&mut manager, token, &confirmed(10.0, 100.0, 1.0, 50), 60);
    assert_eq!(state.snapshot(&manager, "a").unwrap().0.risk_utilization, micros(20.0));
    assert_eq!(state.close_position(&mut manager, "other", micros(1.0), 70), None);
    // Bought 10 at 100, sold at 103: a gain of 30.
    assert_eq!(state.close_position(&mut manager, "tx", micros(103.0), 70), Some(30_000_000));
    assert!(manager.active_positions.is_empty());
    let shown = state.snapshot(&manager, "a").unwrap().0;
    assert_eq!(shown.daily_pnl, 29_000_000);
    assert_eq!(shown.total_pnl, 29_000_000);
    assert_eq!(shown.risk_utilization, 0);
    assert_eq!(shown.updated_at, 70);
    assert_eq!(shown.trade_count_today, 1);
    assert_eq!(state.close_position(&mut manager, "tx", micros(103.0), 71), None);
    // A loss at the limit puts the wallet into emergency mode.
    let token = reserve(&mut state, &manager, "a", 1000.0).unwrap();
    state.apply_result(&mut manager, token, &confirmed(10.0, 100.0, 0.0, 80), 80);
    assert_eq!(state.close_position(&mut manager, "tx", micros(94.1), 90), Some(-59_000_000));
    assert_eq!(state.snapshot(&manager, "a").unwrap().0.daily_pnl, -30_000_000);
    assert_eq!(manager.wallets[0].status, WalletStatus::Emergency);
    // A position that was sold gains when the price falls.
    let token = state
        .reserve(&manager, "b", "SOL/USDC", StrategyType::MomentumTrading, TradeAction::Sell, micros(10.0))
        .unwrap();
    state.apply_result(&mut manager, token, &confirmed(1.0, 10.0, 0.0, 1), 1);
    assert_eq!(state.close_position(&mut manager, "tx", micros(7.5), 2), Some(2_500_000));
}

fn approved_signal(strategy: StrategyType, quantity: f64, price: f64) -> ApprovedSignal {
    let signal = ApprovedSignal {
        original_signal: TradingSignal {
            signal_id: "s".to_string(),
            symbol: "SOL/USDC".to_string(),
            action: TradeAction::Buy,
            quantity: micros(quantity),
            target_price: micros(price),
            confidence: micros(0.9),
            timestamp: 0,
            strategy_type: strategy,
        },
        approved_quantity: micros(quantity),
        risk_score: 0,
        approval_timestamp: 0,
    };
    assert!(signal.is_well_formed());
    signal
}

fn paper_executor() -> MultiWalletExecutor {
    MultiWalletExecutor::new(TradingMode::Paper, "rpc".to_string(), 5000, None)
}

#[test]
fn a_signal_is_prepared_confirmed_and_settled() {
    let mut manager = fleet(&["a", "b"]);
    let mut state = EnvelopeState::new(micros(0.9), 0);
    let mut executor = paper_executor();
    let signal = approved_signal(StrategyType::MomentumTrading, 10.0, 100.0);
    let (routed, token) =
        executor.prepare_signal(&manager, &mut state, &signal, Vec::new(), 0, 5).unwrap();
    // Two wallets that score alike: the identifier decides.
    assert_eq!(routed.selected_wallet_id, "a");
    assert_eq!(routed.routing_timestamp, 5);
    assert_eq!(state.reservations.len(), 1);
    assert_eq!(state.reservations[0].token, token);
    assert_eq!(state.reservations[0].wallet_id, "a");
    assert_eq!(state.reservations[0].notional, micros(1000.0));
    assert!(state.reservations[0].active);
    assert_eq!(executor.get_execution_stats().total_executions, 0);
    match executor.confirm_handle(&manager, &mut state, &routed, token, Vec::new(), 6) {
        HandleStep::Proceed(_) => {}
        _ => panic!("the wallet is in service"),
    }
    assert!(state.reservations[0].active);
    let result = executor.settle_signal(&mut manager, &mut state, &routed, token, &None, "n", 7);
    assert_eq!(result.status, ExecutionStatus::Confirmed);
    assert_eq!(result.signal_id, "s");
    assert_eq!(result.transaction_id, "a_paper_n");
    assert_eq!(result.executed_quantity, micros(10.0));
    assert_eq!(result.fees, micros(1.0));
    assert_eq!(result.timestamp, 7);
    assert!(!state.reservations[0].active);
    assert_eq!(manager.active_positions.len(), 1);
    assert_eq!(manager.active_positions[0].wallet_id, "a");
    let shown = state.snapshot(&manager, "a").unwrap().0;
    assert_eq!(shown.trade_count_today, 1);
    assert_eq!(shown.daily_pnl, -1_000_000);
    assert_eq!(shown.risk_utilization, micros(20.0));
    let stats = executor.get_execution_stats();
    assert_eq!((stats.total_executions, stats.successful_executions, stats.failed_executions), (1, 1, 0));
    assert_eq!(stats.wallet_usage[0].wallet_id, "a");
}

#[test]
fn a_signal_that_cannot_be_prepared_fails_once() {
    let manager = fleet(&["a"]);
    let mut state = EnvelopeState::new(micros(0.9), 0);
    let mut executor = paper_executor();
    // Half of 10000 may be exposed: 6000 is too much.
    let large = approved_signal(StrategyType::MomentumTrading, 60.0, 100.0);
    let result =
        executor.prepare_signal(&manager, &mut state, &large, Vec::new(), 0, 5).unwrap_err();
    assert_eq!(result.status, ExecutionStatus::Failed);
    assert_eq!(result.error_message.as_deref(), Some("ExposureBreached"));
    assert_eq!(result.signal_id, "s");
    assert_eq!(result.transaction_id, "");
    assert_eq!(result.timestamp, 5);
    assert!(state.reservations.is_empty());
    let nobody = approved_signal(StrategyType::Arbitrage, 1.0, 1.0);
    let result =
        executor.prepare_signal(&manager, &mut state, &nobody, Vec::new(), 0, 6).unwrap_err();
    assert_eq!(result.error_message.as_deref(), Some("NoSuitableWallet"));
    state.halted = true;
    let small = approved_signal(StrategyType::MomentumTrading, 1.0, 1.0);
    let result =
        executor.prepare_signal(&manager, &mut state, &small, Vec::new(), 0, 7).unwrap_err();
    assert_eq!(result.error_message.as_deref(), Some("halted"));
    assert!(state.reservations.is_empty());
    let stats = executor.get_execution_stats();
    assert_eq!((stats.total_executions, stats.successful_executions, stats.failed_executions), (3, 0, 3));
    state.clear_halt();
    assert!(executor.prepare_signal(&manager, &mut state, &small, Vec::new(), 0, 8).is_ok());
    assert_eq!(executor.get_execution_stats().total_executions, 3);
}

#[test]
fn a_wallet_that_went_out_of_service_is_routed_around() {
    let mut manager = fleet(&["a", "b"]);
    let mut state = EnvelopeState::new(micros(0.9), 0);
    let mut executor = paper_executor();
    let signal = approved_signal(StrategyType::MomentumTrading, 10.0, 100.0);
    let (routed, token) =
        executor.prepare_signal(&manager, &mut state, &signal, Vec::new(), 0, 5).unwrap();
    assert_eq!(routed.selected_wallet_id, "a");
    manager.wallets[0].status = WalletStatus::Suspended;
    let exclude = match executor.confirm_handle(&manager, &mut state, &routed, token, Vec::new(), 6) {
        HandleStep::RouteAgain(exclude) => exclude,
        _ => panic!("the wallet is out of service"),
    };
    assert_eq!(exclude, vec!["a".to_string()]);
    assert!(!state.reservations[0].active);
    assert_eq!(executor.get_execution_stats().total_executions, 0);
    let (routed, token) =
        executor.prepare_signal(&manager, &mut state, &signal, exclude.clone(), 0, 7).unwrap();
    assert_eq!(routed.selected_wallet_id, "b");
    // A wallet whose key holds no key pair fails the signal.
    manager.wallets[1].private_key = "junk".to_string();
    match executor.confirm_handle(&manager, &mut state, &routed, token, exclude, 8) {
        HandleStep::Fail(result) => {
            assert_eq!(result.status, ExecutionStatus::Failed);
            assert_eq!(result.error_message.as_deref(), Some("InvalidPrivateKey"));
            assert_eq!(result.signal_id, "s");
            assert_eq!(result.timestamp, 8);
        }
        _ => panic!("the wallet has no handle"),
    }
    assert!(state.reservations.iter().all(|r| !r.active));
    assert_eq!(executor.get_execution_stats().failed_executions, 1);
}

#[test]
fn a_breach_on_the_third_trade_halts_the_next_signal() {
    let mut manager = fleet(&["a", "b"]);
    let mut state = EnvelopeState::new(micros(0.5), 0);
    let mut executor = paper_executor();
    let signal = approved_signal(StrategyType::MomentumTrading, 10.0, 100.0);
    let only_a = vec!["b".to_string()];
    for trade in 1..=3 {
        if trade == 3 {
            // The wallet stands one fee short of its limit of 30.
            assert!(state.record_pnl(&mut manager, "a", -27_000_000, 20));
            assert_eq!(manager.wallets[0].status, WalletStatus::Active);
        }
        let (routed, token) = executor
            .prepare_signal(&manager, &mut state, &signal, only_a.clone(), 0, trade)
            .unwrap();
        assert_eq!(routed.selected_wallet_id, "a");
        let result =
            executor.settle_signal(&mut manager, &mut state, &routed, token, &None, "n", trade);
        assert_eq!(result.status, ExecutionStatus::Confirmed);
        assert_eq!(result.fees, micros(1.0));
    }
    assert_eq!(state.snapshot(&manager, "a").unwrap().0.daily_pnl, -30_000_000);
    assert_eq!(manager.wallets[0].status, WalletStatus::Emergency);
    assert_eq!(manager.wallets[1].status, WalletStatus::Active);
    assert!(state.halted);
    // The very next signal fails, whatever wallet it might have had.
    let result =
        executor.prepare_signal(&manager, &mut state, &signal, Vec::new(), 0, 30).unwrap_err();
    assert_eq!(result.status, ExecutionStatus::Failed);
    assert_eq!(result.error_message.as_deref(), Some("halted"));
    // With the halt cleared the wallet in emergency mode still gets nothing.
    state.clear_halt();
    let (routed, token) =
        executor.prepare_signal(&manager, &mut state, &signal, Vec::new(), 0, 31).unwrap();
    assert_eq!(routed.selected_wallet_id, "b");
    state.release(token);
    let result =
        executor.prepare_signal(&manager, &mut state, &signal, only_a.clone(), 0, 32).unwrap_err();
    assert_eq!(result.error_message.as_deref(), Some("NoSuitableWallet"));
    // Back in service, the wallet is routed to again, and its loss of the
    // day still stands against a reservation.
    manager.reactivate_wallet("a").unwrap();
    let result =
        executor.prepare_signal(&manager, &mut state, &signal, only_a, 0, 33).unwrap_err();
    assert_eq!(result.error_message.as_deref(), Some("DailyLossBreached"));
    let stats = executor.get_execution_stats();
    assert_eq!((stats.total_executions, stats.successful_executions, stats.failed_executions), (6, 3, 3));
}

#[test]
fn a_registered_wallet_trades_once_its_balance_is_known() {
    let mut manager = WalletManager::new();
    manager
        .initialize(vec![WalletConfigBuilder::new_at(
            "main".to_string(),
            "Main".to_string(),
            Keypair::new().to_base58_string(),
            0,
        )
        .unwrap()
        .wallet_type(WalletType::Primary)
        .add_strategy_allocation(StrategyType::MomentumTrading, micros(100.0), micros(1000.0))
        .build()])
        .unwrap();
    let mut state = EnvelopeState::new(micros(0.9), 0);
    let mut executor = paper_executor();
    let signal = approved_signal(StrategyType::MomentumTrading, 100.0, 100.0);
    // Without a balance nothing may be exposed.
    let refused =
        executor.prepare_signal(&manager, &mut state, &signal, Vec::new(), 0, 1).unwrap_err();
    assert_eq!(refused.error_message.as_deref(), Some("ExposureBreached"));
    assert!(manager.refresh_balance("main", micros(1000.0), micros(100.0), 2));
    let (routed, token) =
        executor.prepare_signal(&manager, &mut state, &signal, Vec::new(), 0, 3).unwrap();
    let result = executor.settle_signal(&mut manager, &mut state, &routed, token, &None, "n", 4);
    assert_eq!(result.status, ExecutionStatus::Confirmed);
    assert_eq!(result.executed_quantity, micros(100.0));
    assert_eq!(result.executed_price, micros(100.0));
    assert_eq!(result.fees, micros(10.0));
    let shown = manager.get_wallet_metrics("main").unwrap();
    assert_eq!(shown.trade_count_today, 1);
    assert_eq!(shown.daily_pnl, -10_000_000);
}

#[test]
fn risk_utilization_rises_with_the_exposure_and_stops_at_a_hundred() {
    let mut manager = fleet(&["a"]);
    let mut state = EnvelopeState::new(micros(0.9), 0);
    let mut shown_before = 0;
    // The limit is half of 10000. Each fill is worth 2000, whatever was
    // reserved for it.
    for (trade, expected) in [(1, 40.0), (2, 80.0), (3, 100.0)] {
        let token = reserve(&mut state, &manager, "a", 1.0).unwrap();
        state.apply_result(&mut manager, token, &confirmed(20.0, 100.0, 0.0, trade), trade);
        let shown = manager.get_wallet_metrics("a").unwrap().risk_utilization;
        assert_eq!(shown, micros(expected));
        assert!(shown >= shown_before && shown <= micros(100.0));
        shown_before = shown;
    }
}

#[test]
fn nothing_is_executed_with_a_wallet_that_went_out_of_service() {
    let mut manager = fleet(&["a"]);
    let mut state = EnvelopeState::new(micros(0.9), 0);
    let mut executor = paper_executor();
    let signal = approved_signal(StrategyType::MomentumTrading, 10.0, 100.0);
    let (routed, token) =
        executor.prepare_signal(&manager, &mut state, &signal, Vec::new(), 0, 1).unwrap();
    manager.wallets[0].status = WalletStatus::Maintenance;
    let result = executor.settle_signal(&mut manager, &mut state, &routed, token, &None, "n", 2);
    assert_eq!(result.status, ExecutionStatus::Failed);
    assert_eq!(result.error_message.as_deref(), Some("WalletInactive"));
    assert_eq!(result.signal_id, "s");
    assert_eq!(result.executed_quantity, 0);
    assert!(!state.reservations[0].active);
    assert!(manager.active_positions.is_empty());
    assert_eq!(manager.get_wallet_metrics("a").unwrap().trade_count_today, 0);
    assert_eq!(executor.get_execution_stats().failed_executions, 1);
}
